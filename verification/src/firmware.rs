//! The requests this library makes of the firmware dispatch table.
//!
//! A [`Call`] names one entry of the table together with its arguments. The
//! library only ever builds such values; whoever holds the table performs
//! them and hands the reply to the function that interprets it.

use vstd::prelude::*;

verus! {

/// The memory classification a pool allocation is tagged with.
#[derive(Clone, Copy, Debug, PartialEq, Eq, Structural)]
pub enum MemoryType {
    /// Data of the loaded program.
    LoaderData,
}

/// A capability identifier: 128 bits that name one protocol.
#[derive(Clone, Copy, Debug, PartialEq, Eq, Structural)]
pub struct Guid(pub u128);

/// One request to the firmware.
#[derive(Clone, Copy, Debug, PartialEq, Eq)]
pub enum Call {
    /// Allocate `size` bytes from the pool.
    AllocatePool { memory_type: MemoryType, size: usize },
    /// Return the pool region at `addr`.
    FreePool { addr: usize },
    /// Print a null-terminated string of 16-bit code units, held in a buffer
    /// of three.
    OutputString { text: [u16; 3] },
    /// Clear the console.
    ClearScreen,
    /// Find an instance of the protocol `id`.
    LocateProtocol { id: Guid, registration: usize },
    /// Open the root directory of the volume behind `protocol`.
    OpenVolume { protocol: usize },
    /// Read the next record from the open file or directory `file`.
    Read { file: usize },
}

/// A [`Call`] as a mathematical value.
pub enum CallView {
    AllocatePool { memory_type: MemoryType, size: usize },
    FreePool { addr: usize },
    OutputString { text: Seq<u16> },
    ClearScreen,
    LocateProtocol { id: Guid, registration: usize },
    OpenVolume { protocol: usize },
    Read { file: usize },
}

impl View for Call {
    type V = CallView;

    open spec fn view(&self) -> CallView {
        match *self {
            Call::AllocatePool { memory_type, size } => CallView::AllocatePool { memory_type, size },
            Call::FreePool { addr } => CallView::FreePool { addr },
            Call::OutputString { text } => CallView::OutputString { text: text@ },
            Call::ClearScreen => CallView::ClearScreen,
            Call::LocateProtocol { id, registration } => CallView::LocateProtocol {
                id,
                registration,
            },
            Call::OpenVolume { protocol } => CallView::OpenVolume { protocol },
            Call::Read { file } => CallView::Read { file },
        }
    }
}

impl DeepView for Call {
    type V = CallView;

    open spec fn deep_view(&self) -> CallView {
        self@
    }
}

} // verus!
