//! Conditions after which the process cannot go on.

use crate::status::Status;
use crate::text::{
    cut, decimal, hexadecimal, lemma_cut_twice, lemma_word_numerals, Report, REPORT_CAPACITY,
};
use vstd::prelude::*;
use vstd::string::{is_ascii, is_ascii_spec_bytes, StringSliceAdditionalSpecFns};

verus! {

/// A condition that ends the process: it is reported, then the process halts.
#[derive(Clone, Copy, Debug, PartialEq, Eq, Structural)]
pub enum Fatal {
    /// The heap could not serve a request of `size` bytes aligned to `align`.
    OutOfMemory { size: usize, align: usize },
    /// The firmware refused to take a pool region back.
    ReleaseFailed { status: Status },
    /// The firmware could not locate a protocol.
    ProtocolMissing { status: Status },
    /// The program's top-level logic returned something other than success.
    MainFailed { status: Status },
}

/// A status in a report: `0x` and the hexadecimal numeral of its code.
pub open spec fn status_text(status: Status) -> Seq<u8> {
    "0x".spec_bytes() + hexadecimal(status.0 as nat)
}

/// Appends the text of `status` to `out`, as far as there is room.
pub fn push_status(out: &mut Report, status: Status)
    ensures
        final(out)@ == cut(old(out)@ + status_text(status)),
{
    out.push_str("0x");
    out.push_hexadecimal(status.0);
    proof {
        lemma_cut_twice(old(out)@ + "0x".spec_bytes(), hexadecimal(status.0 as nat));
        assert((old(out)@ + "0x".spec_bytes()) + hexadecimal(status.0 as nat) == old(out)@
            + status_text(status));
    }
}

impl Fatal {
    /// The line that reports the condition.
    pub open spec fn report_text(self) -> Seq<u8> {
        match self {
            Fatal::OutOfMemory { size, align } => "out of memory, size ".spec_bytes() + decimal(
                size as nat,
            ) + ", aligned ".spec_bytes() + decimal(align as nat),
            Fatal::ReleaseFailed { status } => {
                "Allocator failed here at dealloc... Status ".spec_bytes() + status_text(status)
            },
            Fatal::ProtocolMissing { status } => "Status: ".spec_bytes() + status_text(status),
            Fatal::MainFailed { status } => "main failed returning status ".spec_bytes()
                + status_text(status),
        }
    }

    /// The line that reports the condition, written without the heap.
    pub fn report(&self) -> (line: Report)
        ensures
            line@ == self.report_text(),
    {
        proof {
            lemma_report_fits(*self);
        }
        match *self {
            Fatal::OutOfMemory { size, align } => {
                let ghost head = "out of memory, size ".spec_bytes();
                let ghost tail = ", aligned ".spec_bytes();
                let mut line = Report::new();
                line.push_str("out of memory, size ");
                assert(Seq::<u8>::empty() + head == head);
                line.push_decimal(size);
                proof {
                    lemma_cut_twice(head, decimal(size as nat));
                }
                line.push_str(", aligned ");
                proof {
                    lemma_cut_twice(head + decimal(size as nat), tail);
                }
                line.push_decimal(align);
                proof {
                    lemma_cut_twice(head + decimal(size as nat) + tail, decimal(align as nat));
                }
                line
            },
            Fatal::ReleaseFailed { status } => {
                status_line("Allocator failed here at dealloc... Status ", status)
            },
            Fatal::ProtocolMissing { status } => status_line("Status: ", status),
            Fatal::MainFailed { status } => status_line("main failed returning status ", status),
        }
    }
}

/// The line made of `head` and the text of `status`, as far as it fits.
fn status_line(head: &str, status: Status) -> (line: Report)
    ensures
        line@ == cut(head.spec_bytes() + status_text(status)),
{
    let mut line = Report::new();
    line.push_str(head);
    assert(Seq::<u8>::empty() + head.spec_bytes() == head.spec_bytes());
    push_status(&mut line, status);
    proof {
        lemma_cut_twice(head.spec_bytes(), status_text(status));
    }
    line
}

/// Every report fits its buffer: none is cut.
pub proof fn lemma_report_fits(fatal: Fatal)
    ensures
        fatal.report_text().len() <= REPORT_CAPACITY,
        cut(fatal.report_text()) == fatal.report_text(),
{
    reveal_strlit("0x");
    assert(is_ascii("0x"));
    is_ascii_spec_bytes("0x");
    match fatal {
        Fatal::OutOfMemory { size, align } => {
            reveal_strlit("out of memory, size ");
            reveal_strlit(", aligned ");
            assert(is_ascii("out of memory, size "));
            assert(is_ascii(", aligned "));
            is_ascii_spec_bytes("out of memory, size ");
            is_ascii_spec_bytes(", aligned ");
            lemma_word_numerals(size);
            lemma_word_numerals(align);
        },
        Fatal::ReleaseFailed { status } => {
            reveal_strlit("Allocator failed here at dealloc... Status ");
            assert(is_ascii("Allocator failed here at dealloc... Status "));
            is_ascii_spec_bytes("Allocator failed here at dealloc... Status ");
            lemma_word_numerals(status.0);
        },
        Fatal::ProtocolMissing { status } => {
            reveal_strlit("Status: ");
            assert(is_ascii("Status: "));
            is_ascii_spec_bytes("Status: ");
            lemma_word_numerals(status.0);
        },
        Fatal::MainFailed { status } => {
            reveal_strlit("main failed returning status ");
            assert(is_ascii("main failed returning status "));
            is_ascii_spec_bytes("main failed returning status ");
            lemma_word_numerals(status.0);
        },
    }
}

} // verus!
