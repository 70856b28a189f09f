//! Text as the firmware and the console see it: null-terminated strings of
//! 16-bit units, line ends, numerals, and the fixed buffer a report is
//! written into.

use vstd::prelude::*;
use vstd::slice::slice_subrange;
use vstd::string::StringSliceAdditionalSpecFns;

verus! {

/// The line-feed character, as a byte.
pub const LINE_FEED: u8 = 0x0a;

/// The carriage-return character, as a byte.
pub const CARRIAGE_RETURN: u8 = 0x0d;

/// The length of a null-terminated string of 16-bit units: the number of
/// units before the first zero, and all of them where there is no zero.
pub open spec fn wide_len(units: Seq<u16>) -> int
    decreases units.len(),
{
    if units.len() == 0 || units[0] == 0 {
        0
    } else {
        1 + wide_len(units.drop_first())
    }
}

/// The string in `units`: what stands before the terminator.
pub open spec fn wide_str(units: Seq<u16>) -> Seq<u16> {
    units.take(wide_len(units))
}

/// The length of a string lies within the units, no unit before it is zero,
/// and the unit at it, if there is one, is the terminator.
pub proof fn lemma_wide_len(units: Seq<u16>)
    ensures
        0 <= wide_len(units) <= units.len(),
        forall|j: int| 0 <= j < wide_len(units) ==> units[j] != 0,
        wide_len(units) < units.len() ==> units[wide_len(units)] == 0,
    decreases units.len(),
{
    if units.len() != 0 && units[0] != 0 {
        let rest = units.drop_first();
        lemma_wide_len(rest);
        assert forall|j: int| 0 <= j < wide_len(units) implies units[j] != 0 by {
            if j > 0 {
                assert(units[j] == rest[j - 1]);
            }
        }
        if wide_len(units) < units.len() {
            assert(units[wide_len(units)] == rest[wide_len(rest)]);
        }
    }
}

/// The first place that holds the terminator, or ends the units, is the
/// length of the string.
pub proof fn lemma_wide_len_is(units: Seq<u16>, k: int)
    requires
        0 <= k <= units.len(),
        forall|j: int| 0 <= j < k ==> units[j] != 0,
        k < units.len() ==> units[k] == 0,
    ensures
        wide_len(units) == k,
    decreases units.len(),
{
    if k > 0 {
        let rest = units.drop_first();
        assert(units[0] != 0);
        assert forall|j: int| 0 <= j < k - 1 implies rest[j] != 0 by {
            assert(rest[j] == units[j + 1]);
        }
        if k - 1 < rest.len() {
            assert(rest[k - 1] == units[k]);
        }
        lemma_wide_len_is(rest, k - 1);
    }
}

/// Taken on trust from the standard library: `String::push` leaves the string
/// as it was, with `ch` added at its end.
pub assume_specification[ String::push ](s: &mut String, ch: char)
    ensures
        final(s)@ == old(s)@.push(ch),
;

/// The ASCII code of a digit below sixteen: `0` to `9`, then `a` to `f`.
pub open spec fn digit_code(d: int) -> u8 {
    if d < 10 {
        (0x30 + d) as u8
    } else {
        (0x57 + d) as u8
    }
}

/// The ASCII code of the digit `d`.
fn digit(d: u8) -> (code: u8)
    requires
        d < 16,
    ensures
        code == digit_code(d as int),
        code < 0x80,
{
    if d < 10 {
        0x30 + d
    } else {
        0x57 + d
    }
}

/// The decimal numeral of `n`, without leading zeros.
pub open spec fn decimal(n: nat) -> Seq<u8>
    decreases n,
{
    if n < 10 {
        seq![digit_code(n as int)]
    } else {
        decimal(n / 10).push(digit_code((n % 10) as int))
    }
}

/// The hexadecimal numeral of `n`, in lower case and without leading zeros.
pub open spec fn hexadecimal(n: nat) -> Seq<u8>
    decreases n,
{
    if n < 16 {
        seq![digit_code(n as int)]
    } else {
        hexadecimal(n / 16).push(digit_code((n % 16) as int))
    }
}

/// The four lower-case hexadecimal digits of a 16-bit unit.
pub open spec fn hex4(u: u16) -> Seq<char> {
    seq![
        digit_code(u as int / 0x1000) as char,
        digit_code(u as int / 0x100 % 16) as char,
        digit_code(u as int / 0x10 % 16) as char,
        digit_code(u as int % 16) as char,
    ]
}

/// Appends the four hexadecimal digits of `u` to `out`.
pub fn push_hex4(out: &mut String, u: u16)
    ensures
        final(out)@ == old(out)@ + hex4(u),
{
    out.push(digit((u / 0x1000) as u8) as char);
    out.push(digit((u / 0x100 % 16) as u8) as char);
    out.push(digit((u / 0x10 % 16) as u8) as char);
    out.push(digit((u % 16) as u8) as char);
}

/// Ten to the power of `k`.
spec fn ten_to(k: nat) -> nat
    decreases k,
{
    if k == 0 {
        1
    } else {
        10 * ten_to((k - 1) as nat)
    }
}

/// A numeral of a number below ten to the power of `k` has at most `k`
/// digits, in base ten and in base sixteen.
proof fn lemma_numeral_len(n: nat, k: nat)
    requires
        k >= 1,
        n < ten_to(k),
    ensures
        decimal(n).len() <= k,
        hexadecimal(n).len() <= k,
    decreases k,
{
    reveal_with_fuel(ten_to, 2);
    if k > 1 {
        if n >= 10 {
            lemma_numeral_len(n / 10, (k - 1) as nat);
        }
        if n >= 16 {
            assert(n / 16 <= n / 10);
            lemma_numeral_len(n / 16, (k - 1) as nat);
        }
    }
}

/// The numerals of a machine word have at most twenty digits.
pub proof fn lemma_word_numerals(n: usize)
    ensures
        decimal(n as nat).len() <= 20,
        hexadecimal(n as nat).len() <= 20,
{
    assert(ten_to(20) == 100_000_000_000_000_000_000nat) by {
        reveal_with_fuel(ten_to, 21);
    }
    lemma_numeral_len(n as nat, 20);
}

/// The number of bytes a report can hold.
pub const REPORT_CAPACITY: usize = 96;

/// A text cut to the capacity of a report.
pub open spec fn cut(text: Seq<u8>) -> Seq<u8> {
    if text.len() <= REPORT_CAPACITY {
        text
    } else {
        text.take(REPORT_CAPACITY as int)
    }
}

/// Cutting early changes nothing: a text that was cut and then extended is
/// cut to the same as the whole.
pub proof fn lemma_cut_twice(text: Seq<u8>, more: Seq<u8>)
    ensures
        cut(cut(text) + more) == cut(text + more),
{
    assert(cut(cut(text) + more) =~= cut(text + more));
}

/// One line of text in a buffer of fixed size, written without the heap.
/// What does not fit is left out.
pub struct Report {
    text: [u8; 96],
    len: usize,
}

impl View for Report {
    type V = Seq<u8>;

    /// The bytes written so far.
    closed spec fn view(&self) -> Seq<u8> {
        self.text@.take(self.len as int)
    }
}

impl DeepView for Report {
    type V = Seq<u8>;

    open spec fn deep_view(&self) -> Seq<u8> {
        self@
    }
}

impl Report {
    #[verifier::type_invariant]
    spec fn within_capacity(&self) -> bool {
        self.len <= REPORT_CAPACITY
    }

    /// The empty report.
    pub fn new() -> (report: Report)
        ensures
            report@ == Seq::<u8>::empty(),
    {
        Report { text: [0u8; 96], len: 0 }
    }

    /// The bytes written so far.
    pub fn as_bytes(&self) -> (bytes: &[u8])
        ensures
            bytes@ == self@,
    {
        proof {
            use_type_invariant(self);
        }
        slice_subrange(self.text.as_slice(), 0, self.len)
    }

    /// Appends one byte, if there is room.
    pub fn push(&mut self, byte: u8)
        ensures
            final(self)@ == cut(old(self)@.push(byte)),
    {
        proof {
            use_type_invariant(&*self);
        }
        if self.len < REPORT_CAPACITY {
            self.text[self.len] = byte;
            self.len += 1;
            assert(self@ == old(self)@.push(byte));
        } else {
            assert(old(self)@.push(byte).take(REPORT_CAPACITY as int) == old(self)@);
        }
    }

    /// Appends the bytes of `text`, as far as there is room.
    pub fn push_str(&mut self, text: &str)
        ensures
            final(self)@ == cut(old(self)@ + text.spec_bytes()),
    {
        let bytes = text.as_bytes();
        let mut i: usize = 0;
        proof {
            use_type_invariant(&*self);
            assert(old(self)@ + bytes@.take(0) == old(self)@);
        }
        while i < bytes.len()
            invariant
                i <= bytes@.len(),
                self@ == cut(old(self)@ + bytes@.take(i as int)),
            decreases bytes@.len() - i,
        {
            self.push(bytes[i]);
            proof {
                let before = old(self)@ + bytes@.take(i as int);
                lemma_cut_twice(before, seq![bytes@[i as int]]);
                assert(cut(before).push(bytes@[i as int]) == cut(before) + seq![bytes@[i as int]]);
                assert(before + seq![bytes@[i as int]] == old(self)@ + bytes@.take(i + 1));
            }
            i += 1;
        }
        assert(bytes@.take(i as int) == bytes@);
    }

    /// Appends the decimal numeral of `n`, as far as there is room.
    pub fn push_decimal(&mut self, n: usize)
        ensures
            final(self)@ == cut(old(self)@ + decimal(n as nat)),
        decreases n,
    {
        if n >= 10 {
            self.push_decimal(n / 10);
        } else {
            proof {
                use_type_invariant(&*self);
            }
        }
        let ghost before = if n >= 10 {
            old(self)@ + decimal((n / 10) as nat)
        } else {
            old(self)@
        };
        let code = digit((n % 10) as u8);
        self.push(code);
        proof {
            lemma_cut_twice(before, seq![code]);
            assert(cut(before).push(code) == cut(before) + seq![code]);
            assert(before + seq![code] == old(self)@ + decimal(n as nat));
        }
    }

    /// Appends the hexadecimal numeral of `n`, as far as there is room.
    pub fn push_hexadecimal(&mut self, n: usize)
        ensures
            final(self)@ == cut(old(self)@ + hexadecimal(n as nat)),
        decreases n,
    {
        if n >= 16 {
            self.push_hexadecimal(n / 16);
        } else {
            proof {
                use_type_invariant(&*self);
            }
        }
        let ghost before = if n >= 16 {
            old(self)@ + hexadecimal((n / 16) as nat)
        } else {
            old(self)@
        };
        let code = digit((n % 16) as u8);
        self.push(code);
        proof {
            lemma_cut_twice(before, seq![code]);
            assert(cut(before).push(code) == cut(before) + seq![code]);
            assert(before + seq![code] == old(self)@ + hexadecimal(n as nat));
        }
    }
}

} // verus!
