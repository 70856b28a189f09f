use uefi_bridge::allocator::{alloc_error, Allocated, Allocator};
use uefi_bridge::fatal::Fatal;
use uefi_bridge::firmware::{Call, Guid, MemoryType};
use uefi_bridge::status::{Status, ERROR_BIT, INVALID_PARAMETER};
use uefi_bridge::stdio::{Stdout, _println};
use uefi_bridge::system::{image_handle, system_table, Phase, System};
use uefi_bridge::text::Report;

const FILE_SYSTEM: Guid = Guid(0x964e5b22_6459_11d2_8e39_00a0c969723b);

/// A firmware that fails what it is told to fail and records every request
/// that reaches it.
struct Firmware {
    calls: Vec<Call>,
    fail_release: bool,
    fail_locate: bool,
}

impl Firmware {
    fn new() -> Firmware {
        Firmware { calls: Vec::new(), fail_release: false, fail_locate: false }
    }

    fn perform(&mut self, call: Call) -> (Status, usize) {
        let reply = match &call {
            Call::AllocatePool { .. } => (Status::success(), 0x4000),
            Call::FreePool { .. } if self.fail_release => (Status(INVALID_PARAMETER), 0),
            Call::LocateProtocol { .. } if self.fail_locate => (Status(ERROR_BIT | 14), 0),
            Call::LocateProtocol { .. } => (Status::success(), 0x7000),
            _ => (Status::success(), 0),
        };
        self.calls.push(call);
        reply
    }

    /// Performs `call` if the process may still make it.
    fn ask(&mut self, sys: &System, call: Call) -> Option<(Status, usize)> {
        sys.issue(call).map(|call| self.perform(call))
    }

    /// Prints a report, if there is one: the last words of the process.
    fn print(&mut self, line: Option<Report>) {
        if let Some(line) = line {
            let mut writer = Stdout.write_line(line.as_bytes());
            while let Some(call) = writer.next() {
                writer.reply(self.perform(call).0);
            }
        }
    }

    /// Reports `fatal` and halts, as the process does.
    fn halt(&mut self, sys: &mut System, fatal: Fatal) {
        let line = sys.fail(fatal);
        self.print(line);
    }
}

/// The requests that print `text` as one line.
fn line(text: &str) -> Vec<Call> {
    let mut calls = Vec::new();
    let mut writer = _println(text);
    while let Some(call) = writer.next() {
        calls.push(call);
    }
    calls
}

fn text(report: &Report) -> &str {
    std::str::from_utf8(report.as_bytes()).unwrap()
}

/// After a halt nothing more reaches the firmware.
fn assert_silent(sys: &mut System, firmware: &mut Firmware) {
    let before = firmware.calls.len();
    assert_eq!(firmware.ask(sys, Allocator.allocate_request(8)), None);
    assert_eq!(firmware.ask(sys, Allocator.dealloc_request(0x4000).unwrap()), None);
    for call in line("still here") {
        assert_eq!(firmware.ask(sys, call), None);
    }
    firmware.halt(sys, Fatal::OutOfMemory { size: 1, align: 8 });
    let last = sys.conclude(Status(ERROR_BIT));
    firmware.print(last);
    assert_eq!(firmware.calls.len(), before);
    assert_eq!(sys.phase(), Phase::Halted);
}

#[test]
fn enter_takes_handle_and_table() {
    let sys = System::enter(0x11, 0x22);
    assert_eq!(sys.image_handle(), 0x11);
    assert_eq!(image_handle(&sys), 0x11);
    assert_eq!(system_table(&sys), 0x22);
    assert_eq!(sys.phase(), Phase::Running);
}

#[test]
fn running_process_may_call() {
    let sys = System::enter(0x11, 0x22);
    assert_eq!(sys.issue(Call::ClearScreen), Some(Call::ClearScreen));
    assert_eq!(
        sys.issue(Call::OutputString { text: [0x61, 0, 0] }),
        Some(Call::OutputString { text: [0x61, 0, 0] })
    );
}

#[test]
fn success_parks_the_process() {
    let mut sys = System::enter(0x11, 0x22);
    assert!(sys.conclude(Status::success()).is_none());
    assert_eq!(sys.phase(), Phase::Parked);
    assert_eq!(sys.issue(Call::ClearScreen), None);
    assert_eq!(sys.image_handle(), 0x11);
    assert_eq!(system_table(&sys), 0x22);

    // Parked for good: a later failure changes nothing and prints nothing.
    assert!(sys.fail(Fatal::OutOfMemory { size: 1, align: 8 }).is_none());
    assert!(sys.conclude(Status(ERROR_BIT)).is_none());
    assert_eq!(sys.phase(), Phase::Parked);
}

#[test]
fn failure_of_the_logic_is_reported_and_halts() {
    let mut sys = System::enter(0x11, 0x22);
    let last = sys.conclude(Status(3)).unwrap();
    assert_eq!(text(&last), "main failed returning status 0x3");
    assert_eq!(sys.phase(), Phase::Halted);
    assert_eq!(sys.issue(Call::ClearScreen), None);
    assert!(sys.conclude(Status::success()).is_none());
    assert_eq!(sys.phase(), Phase::Halted);
}

#[test]
fn fail_prints_the_report_once() {
    let mut sys = System::enter(0x11, 0x22);
    let fatal = Fatal::OutOfMemory { size: 16, align: 8 };
    let last = sys.fail(fatal).unwrap();
    assert_eq!(text(&last), "out of memory, size 16, aligned 8");
    assert_eq!(sys.phase(), Phase::Halted);
    assert!(sys.fail(fatal).is_none());
    assert_eq!(sys.image_handle(), 0x11);
    assert_eq!(system_table(&sys), 0x22);
}

#[test]
fn get_protocol_request_takes_any_instance() {
    assert_eq!(
        System::get_protocol_request(FILE_SYSTEM),
        Call::LocateProtocol { id: FILE_SYSTEM, registration: 0 }
    );
}

#[test]
fn get_protocol_gives_the_address() {
    assert_eq!(System::get_protocol(Status::success(), 0x7000), Ok(0x7000));
    assert_eq!(System::get_protocol(Status::success(), 0), Ok(0));
}

#[test]
fn get_protocol_failure_is_fatal() {
    let status = Status(ERROR_BIT | 14);
    assert_eq!(System::get_protocol(status, 0x7000), Err(Fatal::ProtocolMissing { status }));
    assert_eq!(
        System::get_protocol(Status(1), 0x7000),
        Err(Fatal::ProtocolMissing { status: Status(1) })
    );
}

#[test]
fn get_fs_wraps_the_protocol() {
    let fs = System::get_fs(Status::success(), 0x7000).ok().unwrap();
    assert_eq!(fs.protocol(), 0x7000);
    assert_eq!(fs.root_request(), Call::OpenVolume { protocol: 0x7000 });
    let status = Status(ERROR_BIT | 14);
    assert_eq!(System::get_fs(status, 0x7000).err(), Some(Fatal::ProtocolMissing { status }));
}

#[test]
fn get_devpathutils_gives_the_address() {
    assert_eq!(System::get_devpathutils(Status::success(), 0x8000), Ok(0x8000));
    let status = Status(ERROR_BIT | 14);
    assert_eq!(
        System::get_devpathutils(status, 0x8000),
        Err(Fatal::ProtocolMissing { status })
    );
}

#[test]
fn heap_exhaustion_halts_without_a_further_call() {
    let mut firmware = Firmware::new();
    let mut sys = System::enter(0x11, 0x22);
    firmware.halt(&mut sys, alloc_error(1 << 20, 8));
    assert_eq!(firmware.calls, line("out of memory, size 1048576, aligned 8"));
    assert_silent(&mut sys, &mut firmware);
}

#[test]
fn release_failure_halts_without_a_further_call() {
    let mut firmware = Firmware::new();
    firmware.fail_release = true;
    let mut sys = System::enter(0x11, 0x22);

    let (status, addr) = firmware.ask(&sys, Allocated::new_request(32)).unwrap();
    let mut region = Allocated::new(32, status, addr);
    let (status, _) = firmware.ask(&sys, region.free().unwrap()).unwrap();
    let fatal = Allocator.dealloc(status).unwrap_err();
    assert_eq!(fatal, Fatal::ReleaseFailed { status: Status(INVALID_PARAMETER) });
    firmware.halt(&mut sys, fatal);

    let mut expected = vec![
        Call::AllocatePool { memory_type: MemoryType::LoaderData, size: 32 },
        Call::FreePool { addr: 0x4000 },
    ];
    expected.extend(line(text(&fatal.report())));
    assert_eq!(firmware.calls, expected);
    assert_silent(&mut sys, &mut firmware);
}

#[test]
fn missing_protocol_halts_without_a_further_call() {
    let mut firmware = Firmware::new();
    firmware.fail_locate = true;
    let mut sys = System::enter(0x11, 0x22);

    let (status, addr) = firmware.ask(&sys, System::get_protocol_request(FILE_SYSTEM)).unwrap();
    let fatal = System::get_fs(status, addr).err().unwrap();
    firmware.halt(&mut sys, fatal);

    let mut expected = vec![Call::LocateProtocol { id: FILE_SYSTEM, registration: 0 }];
    expected.extend(line(&format!("Status: {:#x}", ERROR_BIT | 14)));
    assert_eq!(firmware.calls, expected);
    assert_silent(&mut sys, &mut firmware);
}
