//! Console output through the firmware, one character per request.
//!
//! A write is a [`Writer`]: it gives out the requests of the text one by one
//! and takes the firmware's reply to each. Nothing is buffered and nothing is
//! allocated, so the console also serves when the heap does not.

use crate::firmware::{Call, CallView};
use crate::status::{Status, SUCCESS};
use crate::text::{lemma_wide_len_is, wide_str, CARRIAGE_RETURN, LINE_FEED};
use vstd::prelude::*;
use vstd::string::StringSliceAdditionalSpecFns;

verus! {

/// The console.
pub struct Stdout;

/// The null-terminated string that prints one byte of text, in a buffer of
/// three units: the byte as a code unit, or carriage return and line feed
/// for a line feed.
pub open spec fn frame(byte: u8) -> Seq<u16> {
    if byte == LINE_FEED {
        seq![CARRIAGE_RETURN as u16, LINE_FEED as u16, 0u16]
    } else {
        seq![byte as u16, 0u16, 0u16]
    }
}

/// The requests that print `bytes`: one for each byte, in order.
pub open spec fn output_calls(bytes: Seq<u8>) -> Seq<CallView> {
    Seq::new(bytes.len(), |i: int| CallView::OutputString { text: frame(bytes[i]) })
}

/// The units one request puts on the console: the string of an output
/// request up to its terminator, and nothing for any other request.
pub open spec fn shown(call: CallView) -> Seq<u16> {
    match call {
        CallView::OutputString { text } => wide_str(text),
        _ => Seq::empty(),
    }
}

/// The units a run of requests puts on the console, in order.
pub open spec fn shown_by(calls: Seq<CallView>) -> Seq<u16>
    decreases calls.len(),
{
    if calls.len() == 0 {
        Seq::empty()
    } else {
        shown_by(calls.drop_last()) + shown(calls.last())
    }
}

/// The units that stand for one byte of text on the console: carriage return
/// and line feed for a line feed, nothing for a zero byte, and the byte
/// itself otherwise.
pub open spec fn byte_units(byte: u8) -> Seq<u16> {
    if byte == LINE_FEED {
        seq![CARRIAGE_RETURN as u16, LINE_FEED as u16]
    } else if byte == 0 {
        Seq::empty()
    } else {
        seq![byte as u16]
    }
}

/// The units that stand for a text on the console: those of each of its
/// bytes, in order.
pub open spec fn text_units(bytes: Seq<u8>) -> Seq<u16>
    decreases bytes.len(),
{
    if bytes.len() == 0 {
        Seq::empty()
    } else {
        text_units(bytes.drop_last()) + byte_units(bytes.last())
    }
}

/// The request for one byte shows the units of that byte.
pub proof fn lemma_frame_shows(byte: u8)
    ensures
        wide_str(frame(byte)) == byte_units(byte),
{
    if byte == LINE_FEED {
        lemma_wide_len_is(frame(byte), 2);
    } else if byte == 0 {
        lemma_wide_len_is(frame(byte), 0);
    } else {
        lemma_wide_len_is(frame(byte), 1);
    }
}

/// The requests of a write put the text on the console unit by unit, in the
/// order of the text, with a carriage return before every line feed.
pub proof fn lemma_write_shows(bytes: Seq<u8>)
    ensures
        shown_by(output_calls(bytes)) == text_units(bytes),
    decreases bytes.len(),
{
    if bytes.len() > 0 {
        lemma_write_shows(bytes.drop_last());
        lemma_frame_shows(bytes.last());
        assert(output_calls(bytes).drop_last() == output_calls(bytes.drop_last()));
    }
}

/// An outcome after one more reply: a failure stays, and a status that is
/// not success fails a write that had succeeded so far.
pub open spec fn merged(outcome: Result<(), Status>, status: Status) -> Result<(), Status> {
    if outcome is Ok && status != Status(SUCCESS) {
        Err(status)
    } else {
        outcome
    }
}

/// What a write yields, given the statuses of its requests in order.
pub open spec fn write_outcome(statuses: Seq<Status>) -> Result<(), Status>
    decreases statuses.len(),
{
    if statuses.len() == 0 {
        Ok(())
    } else {
        merged(write_outcome(statuses.drop_last()), statuses.last())
    }
}

/// A write succeeds exactly when every one of its requests succeeded.
pub proof fn lemma_write_succeeds(statuses: Seq<Status>)
    ensures
        write_outcome(statuses) is Ok <==> forall|i: int|
            0 <= i < statuses.len() ==> statuses[i] == Status(SUCCESS),
    decreases statuses.len(),
{
    if statuses.len() > 0 {
        let front = statuses.drop_last();
        lemma_write_succeeds(front);
        if write_outcome(statuses) is Ok {
            assert forall|i: int| 0 <= i < statuses.len() implies statuses[i] == Status(
                SUCCESS,
            ) by {
                if i < front.len() {
                    assert(front[i] == statuses[i]);
                }
            }
        }
        if forall|i: int| 0 <= i < statuses.len() ==> statuses[i] == Status(SUCCESS) {
            assert forall|i: int| 0 <= i < front.len() implies front[i] == Status(SUCCESS) by {
                assert(front[i] == statuses[i]);
            }
        }
    }
}

/// A write that fails does so with the status of the first request that did
/// not succeed.
pub proof fn lemma_write_fails(statuses: Seq<Status>, i: int)
    requires
        0 <= i < statuses.len(),
        statuses[i] != Status(SUCCESS),
        forall|j: int| 0 <= j < i ==> statuses[j] == Status(SUCCESS),
    ensures
        write_outcome(statuses) == Err::<(), Status>(statuses[i]),
    decreases statuses.len(),
{
    let front = statuses.drop_last();
    if i < front.len() {
        assert(front[i] == statuses[i]);
        assert forall|j: int| 0 <= j < i implies front[j] == Status(SUCCESS) by {
            assert(front[j] == statuses[j]);
        }
        lemma_write_fails(front, i);
    } else {
        lemma_write_succeeds(front);
        assert forall|j: int| 0 <= j < front.len() implies front[j] == Status(SUCCESS) by {
            assert(front[j] == statuses[j]);
        }
    }
}

/// What clearing the console yields: the firmware's status, unless it is
/// success.
pub open spec fn clear_outcome(status: Status) -> Result<(), Status> {
    if status == Status(SUCCESS) {
        Ok(())
    } else {
        Err(status)
    }
}

/// A write in progress, as a value: the bytes to print, how many of their
/// requests have been given out, and the outcome of the replies so far.
pub struct Writing {
    pub bytes: Seq<u8>,
    pub sent: nat,
    pub outcome: Result<(), Status>,
}

impl Writing {
    /// A write of `bytes` before its first request.
    pub open spec fn start(bytes: Seq<u8>) -> Writing {
        Writing { bytes, sent: 0, outcome: Ok(()) }
    }

    /// The next request: that of the next byte, none when all are out.
    pub open spec fn next_call(self) -> Option<CallView> {
        if self.sent < self.bytes.len() {
            Some(output_calls(self.bytes)[self.sent as int])
        } else {
            None
        }
    }

    /// The write after its next request has been given out.
    pub open spec fn after_next(self) -> Writing {
        if self.sent < self.bytes.len() {
            Writing { bytes: self.bytes, sent: self.sent + 1, outcome: self.outcome }
        } else {
            self
        }
    }

    /// The write after the firmware's reply to a request.
    pub open spec fn after_reply(self, status: Status) -> Writing {
        Writing { bytes: self.bytes, sent: self.sent, outcome: merged(self.outcome, status) }
    }

    /// The write after the replies `statuses`, in order.
    pub open spec fn after_replies(self, statuses: Seq<Status>) -> Writing
        decreases statuses.len(),
    {
        if statuses.len() == 0 {
            self
        } else {
            self.after_replies(statuses.drop_last()).after_reply(statuses.last())
        }
    }
}

/// The outcome of a write is that of its replies: success if every request
/// succeeded, and the first status that is not success otherwise.
pub proof fn lemma_replies(bytes: Seq<u8>, statuses: Seq<Status>)
    ensures
        Writing::start(bytes).after_replies(statuses).outcome == write_outcome(statuses),
        Writing::start(bytes).after_replies(statuses).bytes == bytes,
    decreases statuses.len(),
{
    if statuses.len() > 0 {
        lemma_replies(bytes, statuses.drop_last());
    }
}

/// One write to the console, in progress.
pub struct Writer<'a> {
    text: &'a [u8],
    newline: bool,
    at: usize,
    ended: bool,
    outcome: Result<(), Status>,
}

impl<'a> View for Writer<'a> {
    type V = Writing;

    closed spec fn view(&self) -> Writing {
        Writing {
            bytes: if self.newline {
                self.text@.push(LINE_FEED)
            } else {
                self.text@
            },
            sent: if self.ended {
                (self.at + 1) as nat
            } else {
                self.at as nat
            },
            outcome: self.outcome,
        }
    }
}

/// The request that prints `byte`.
fn frame_call(byte: u8) -> (call: Call)
    ensures
        call@ == (CallView::OutputString { text: frame(byte) }),
{
    let text: [u16; 3] = if byte == LINE_FEED {
        [CARRIAGE_RETURN as u16, LINE_FEED as u16, 0]
    } else {
        [byte as u16, 0, 0]
    };
    assert(text@ == frame(byte));
    Call::OutputString { text }
}

impl<'a> Writer<'a> {
    #[verifier::type_invariant]
    spec fn in_step(&self) -> bool {
        &&& self.at <= self.text@.len()
        &&& self.ended ==> self.newline && self.at == self.text@.len()
    }

    /// A write of `text`, followed by a line end if `newline` is set.
    fn new(text: &'a [u8], newline: bool) -> (writer: Writer<'a>)
        ensures
            writer@ == Writing::start(
                if newline {
                    text@.push(LINE_FEED)
                } else {
                    text@
                },
            ),
    {
        Writer { text, newline, at: 0, ended: false, outcome: Ok(()) }
    }

    /// Gives out the next request: none when the whole text is out.
    pub fn next(&mut self) -> (call: Option<Call>)
        ensures
            call.deep_view() == old(self)@.next_call(),
            final(self)@ == old(self)@.after_next(),
    {
        proof {
            use_type_invariant(&*self);
        }
        if self.at < self.text.len() {
            let call = frame_call(self.text[self.at]);
            self.at += 1;
            Some(call)
        } else if self.newline && !self.ended {
            self.ended = true;
            Some(frame_call(LINE_FEED))
        } else {
            None
        }
    }

    /// Takes the firmware's reply to a request of this write.
    pub fn reply(&mut self, status: Status)
        ensures
            final(self)@ == old(self)@.after_reply(status),
    {
        proof {
            use_type_invariant(&*self);
        }
        if self.outcome.is_ok() && status.0 != SUCCESS {
            self.outcome = Err(status);
        }
    }

    /// The outcome of the replies so far.
    pub fn finish(&self) -> (done: Result<(), Status>)
        ensures
            done == self@.outcome,
    {
        self.outcome
    }
}

impl Stdout {
    /// Begins a write of `s`. Each byte of the text is printed by one
    /// request.
    pub fn write_str<'a>(&mut self, s: &'a str) -> (writer: Writer<'a>)
        ensures
            writer@ == Writing::start(s.spec_bytes()),
    {
        Writer::new(s.as_bytes(), false)
    }

    /// Begins a write of `line`, followed by a line end.
    pub fn write_line<'a>(&mut self, line: &'a [u8]) -> (writer: Writer<'a>)
        ensures
            writer@ == Writing::start(line@.push(LINE_FEED)),
    {
        Writer::new(line, true)
    }

    /// The request that clears the console.
    pub fn clear_request(&self) -> (call: Call)
        ensures
            call@ == CallView::ClearScreen,
    {
        Call::ClearScreen
    }

    /// Reads the firmware's reply to [`Stdout::clear_request`].
    pub fn clear_screen(&self, status: Status) -> (done: Result<(), Status>)
        ensures
            done == clear_outcome(status),
    {
        if status.0 == SUCCESS {
            Ok(())
        } else {
            Err(status)
        }
    }
}

/// Begins printing `text`.
pub fn _print<'a>(text: &'a str) -> (writer: Writer<'a>)
    ensures
        writer@ == Writing::start(text.spec_bytes()),
{
    Writer::new(text.as_bytes(), false)
}

/// Begins printing `text` and a line end after it.
pub fn _println<'a>(text: &'a str) -> (writer: Writer<'a>)
    ensures
        writer@ == Writing::start(text.spec_bytes().push(LINE_FEED)),
{
    Writer::new(text.as_bytes(), true)
}

} // verus!
