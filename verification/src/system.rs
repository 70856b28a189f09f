//! The process as the firmware started it: the dispatch table and execution
//! handle it handed over at entry, and how far the process has come.

use crate::fatal::Fatal;
use crate::firmware::{Call, CallView, Guid};
use crate::fs::FileSystem;
use crate::status::{Status, SUCCESS};
use crate::stdio::output_calls;
use crate::text::{Report, LINE_FEED};
use vstd::prelude::*;

verus! {

/// How far the process has come.
#[derive(Clone, Copy, Debug, PartialEq, Eq, Structural)]
pub enum Phase {
    /// The program's logic runs and may call the firmware.
    Running,
    /// The logic returned success; the process idles for good.
    Parked,
    /// A fatal condition was reported; the process stands still.
    Halted,
}

/// The process as a value: the execution handle, the address of the dispatch
/// table, and the phase.
pub struct Process {
    pub image: usize,
    pub table: usize,
    pub phase: Phase,
}

/// The firmware's dispatch table and the execution handle, as the addresses
/// received at entry, together with the phase of the process.
///
/// The two addresses are set when the value is made and never change.
pub struct System {
    image_handle: usize,
    table: usize,
    phase: Phase,
}

impl View for System {
    type V = Process;

    closed spec fn view(&self) -> Process {
        Process { image: self.image_handle, table: self.table, phase: self.phase }
    }
}

/// The request that looks up the protocol `id`: any instance will do, so no
/// registration key is given.
pub open spec fn locate_call(id: Guid) -> CallView {
    CallView::LocateProtocol { id, registration: 0 }
}

/// What a lookup yields: the address the firmware stored on success, and a
/// fatal condition on anything else.
pub open spec fn locate_outcome(status: Status, addr: usize) -> Result<usize, Fatal> {
    if status == Status(SUCCESS) {
        Ok(addr)
    } else {
        Err(Fatal::ProtocolMissing { status })
    }
}

/// The address of the protocol in a result of [`System::get_fs`].
pub open spec fn fs_view(found: Result<FileSystem, Fatal>) -> Result<usize, Fatal> {
    match found {
        Ok(fs) => Ok(fs@),
        Err(fatal) => Err(fatal),
    }
}

/// The requests that print a report as one line: those of its bytes and of
/// a line end after them.
pub open spec fn line_calls(line: Seq<u8>) -> Seq<CallView> {
    output_calls(line.push(LINE_FEED))
}

impl Process {
    /// The process in another phase.
    pub open spec fn moved_to(self, phase: Phase) -> Process {
        Process { image: self.image, table: self.table, phase }
    }

    /// What the process may ask of the firmware when it wants to make
    /// `call`: that call while it runs, nothing afterwards.
    pub open spec fn gate(self, call: CallView) -> Option<CallView> {
        if self.phase is Running {
            Some(call)
        } else {
            None
        }
    }

    /// The process after a fatal condition: halted, unless it had already
    /// come to rest.
    pub open spec fn after_fail(self) -> Process {
        if self.phase is Running {
            self.moved_to(Phase::Halted)
        } else {
            self
        }
    }

    /// The line a fatal condition prints: its report while the process
    /// runs, none afterwards.
    pub open spec fn fail_report(self, fatal: Fatal) -> Option<Seq<u8>> {
        if self.phase is Running {
            Some(fatal.report_text())
        } else {
            None
        }
    }

    /// The last requests of the process, made by a fatal condition: those
    /// that print its report while the process runs, none afterwards.
    pub open spec fn fail_calls(self, fatal: Fatal) -> Seq<CallView> {
        match self.fail_report(fatal) {
            Some(line) => line_calls(line),
            None => Seq::empty(),
        }
    }

    /// The process after its logic returned `status`: parked on success,
    /// halted on anything else, and as it was if it had already come to rest.
    pub open spec fn after_main(self, status: Status) -> Process {
        if !(self.phase is Running) {
            self
        } else if status == Status(SUCCESS) {
            self.moved_to(Phase::Parked)
        } else {
            self.moved_to(Phase::Halted)
        }
    }

    /// The line printed when the logic returned `status`: none on success,
    /// else the report that the logic failed.
    pub open spec fn main_report(self, status: Status) -> Option<Seq<u8>> {
        if status == Status(SUCCESS) {
            None
        } else {
            self.fail_report(Fatal::MainFailed { status })
        }
    }
}

/// The address of the dispatch table.
pub fn system_table(sys: &System) -> (table: usize)
    ensures
        table == sys@.table,
{
    sys.table
}

/// The execution handle.
pub fn image_handle(sys: &System) -> (handle: usize)
    ensures
        handle == sys@.image,
{
    sys.image_handle
}

impl System {
    /// Takes what the firmware hands over at entry. This is the one place
    /// where the handle and the table are set; the process runs from here on.
    pub fn enter(image_handle: usize, table: usize) -> (sys: System)
        ensures
            sys@ == (Process { image: image_handle, table, phase: Phase::Running }),
    {
        System { image_handle, table, phase: Phase::Running }
    }

    /// The execution handle.
    pub fn image_handle(&self) -> (handle: usize)
        ensures
            handle == self@.image,
    {
        image_handle(self)
    }

    /// The phase of the process.
    pub fn phase(&self) -> (phase: Phase)
        ensures
            phase == self@.phase,
    {
        self.phase
    }

    /// Passes `call` on while the process runs, and withholds it afterwards.
    pub fn issue(&self, call: Call) -> (passed: Option<Call>)
        ensures
            passed.deep_view() == self@.gate(call@),
    {
        match self.phase {
            Phase::Running => Some(call),
            _ => None,
        }
    }

    /// Ends the process on a fatal condition: halts it, and gives the line
    /// that reports the condition. Printing that line is the last the
    /// process does. A process at rest stays as it is and prints nothing.
    pub fn fail(&mut self, fatal: Fatal) -> (line: Option<Report>)
        ensures
            line.deep_view() == old(self)@.fail_report(fatal),
            final(self)@ == old(self)@.after_fail(),
    {
        match self.phase {
            Phase::Running => {
                self.phase = Phase::Halted;
                Some(fatal.report())
            },
            _ => None,
        }
    }

    /// Ends the process when its top-level logic has returned `status`: on
    /// success it parks; on anything else it halts, and the line that
    /// reports the failure is given.
    pub fn conclude(&mut self, status: Status) -> (line: Option<Report>)
        ensures
            line.deep_view() == old(self)@.main_report(status),
            final(self)@ == old(self)@.after_main(status),
    {
        if status.0 == SUCCESS {
            match self.phase {
                Phase::Running => {
                    self.phase = Phase::Parked;
                },
                _ => {},
            }
            None
        } else {
            self.fail(Fatal::MainFailed { status })
        }
    }

    /// The request that looks up the protocol `id`.
    pub fn get_protocol_request(id: Guid) -> (call: Call)
        ensures
            call@ == locate_call(id),
    {
        Call::LocateProtocol { id, registration: 0 }
    }

    /// Reads the firmware's reply to a lookup: its status and the address it
    /// stored. A protocol that is asked for is needed, so its absence is
    /// fatal.
    pub fn get_protocol(status: Status, addr: usize) -> (found: Result<usize, Fatal>)
        ensures
            found == locate_outcome(status, addr),
    {
        if status.0 == SUCCESS {
            Ok(addr)
        } else {
            Err(Fatal::ProtocolMissing { status })
        }
    }

    /// Reads the firmware's reply to the lookup of the filesystem protocol.
    pub fn get_fs(status: Status, addr: usize) -> (found: Result<FileSystem, Fatal>)
        ensures
            fs_view(found) == locate_outcome(status, addr),
    {
        match System::get_protocol(status, addr) {
            Ok(protocol) => Ok(FileSystem::new(protocol)),
            Err(fatal) => Err(fatal),
        }
    }

    /// Reads the firmware's reply to the lookup of the device-path
    /// utilities: their address.
    pub fn get_devpathutils(status: Status, addr: usize) -> (found: Result<usize, Fatal>)
        ensures
            found == locate_outcome(status, addr),
    {
        match System::get_protocol(status, addr) {
            Ok(utils) => Ok(utils),
            Err(fatal) => Err(fatal),
        }
    }
}

/// The handle and the table are set once: nothing that happens to the
/// process changes them.
pub proof fn lemma_set_once(process: Process, status: Status)
    ensures
        process.after_fail().image == process.image,
        process.after_fail().table == process.table,
        process.after_main(status).image == process.image,
        process.after_main(status).table == process.table,
{
}

/// A fatal condition brings the process to rest: a running process halts,
/// and no process runs afterwards.
pub proof fn lemma_fail_halts(process: Process)
    ensures
        !(process.after_fail().phase is Running),
        process.phase is Running ==> process.after_fail().phase is Halted,
{
}

/// Rest is final. A process that has halted or parked stays as it is whatever
/// happens, and asks nothing more of the firmware: no call passes, and a
/// further failure or return prints nothing.
pub proof fn lemma_rest_is_final(process: Process, call: CallView, fatal: Fatal, status: Status)
    requires
        !(process.phase is Running),
    ensures
        process.gate(call) is None,
        process.after_fail() == process,
        process.fail_report(fatal) is None,
        process.fail_calls(fatal) == Seq::<CallView>::empty(),
        process.after_main(status) == process,
        process.main_report(status) is None,
{
}

/// The last words of a process are console output alone: a fatal condition
/// asks nothing of the firmware but to print its report.
pub proof fn lemma_last_words(process: Process, fatal: Fatal, i: int)
    requires
        0 <= i < process.fail_calls(fatal).len(),
    ensures
        process.fail_calls(fatal)[i] is OutputString,
{
}

} // verus!
