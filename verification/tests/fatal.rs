use uefi_bridge::fatal::{push_status, Fatal};
use uefi_bridge::status::{Status, ERROR_BIT};
use uefi_bridge::text::{Report, CARRIAGE_RETURN, LINE_FEED, REPORT_CAPACITY};

fn text(report: &Report) -> &str {
    std::str::from_utf8(report.as_bytes()).unwrap()
}

fn decimal(n: usize) -> String {
    let mut out = Report::new();
    out.push_str("n=");
    out.push_decimal(n);
    text(&out).to_string()
}

fn hexadecimal(n: usize) -> String {
    let mut out = Report::new();
    out.push_str("x=");
    out.push_hexadecimal(n);
    text(&out).to_string()
}

#[test]
fn line_ends_are_the_ascii_ones() {
    assert_eq!(LINE_FEED, b'\n');
    assert_eq!(CARRIAGE_RETURN, b'\r');
}

#[test]
fn new_report_is_empty() {
    assert_eq!(Report::new().as_bytes(), b"");
}

#[test]
fn push_appends_one_byte() {
    let mut out = Report::new();
    out.push(b'a');
    out.push(b'b');
    assert_eq!(out.as_bytes(), b"ab");
}

#[test]
fn push_str_appends_the_bytes_of_the_text() {
    let mut out = Report::new();
    out.push_str("size ");
    out.push_str("");
    out.push_str("\u{e9}");
    assert_eq!(out.as_bytes(), "size \u{e9}".as_bytes());
}

#[test]
fn report_leaves_out_what_does_not_fit() {
    assert_eq!(REPORT_CAPACITY, 96);
    let mut out = Report::new();
    for _ in 0..9 {
        out.push_str("0123456789");
    }
    assert_eq!(out.as_bytes().len(), 90);
    out.push_str("abcdefghij");
    assert_eq!(out.as_bytes().len(), 96);
    assert_eq!(&out.as_bytes()[90..], b"abcdef");
    out.push(b'z');
    out.push_decimal(12345);
    out.push_hexadecimal(0xabc);
    assert_eq!(out.as_bytes().len(), 96);
    assert_eq!(&out.as_bytes()[90..], b"abcdef");
}

#[test]
fn numeral_is_cut_at_the_capacity() {
    let mut out = Report::new();
    for _ in 0..94 {
        out.push(b'.');
    }
    out.push_decimal(2024);
    assert_eq!(&out.as_bytes()[94..], b"20");
}

#[test]
fn digits_cover_sixteen_values() {
    let mut digits = Report::new();
    for d in 0..16 {
        digits.push_hexadecimal(d);
    }
    assert_eq!(digits.as_bytes(), b"0123456789abcdef");
}

#[test]
fn decimal_has_no_leading_zeros() {
    assert_eq!(decimal(0), "n=0");
    assert_eq!(decimal(9), "n=9");
    assert_eq!(decimal(10), "n=10");
    assert_eq!(decimal(4096), "n=4096");
    assert_eq!(decimal(usize::MAX), format!("n={}", usize::MAX));
}

#[test]
fn hexadecimal_is_lower_case() {
    assert_eq!(hexadecimal(0), "x=0");
    assert_eq!(hexadecimal(15), "x=f");
    assert_eq!(hexadecimal(16), "x=10");
    assert_eq!(hexadecimal(0xdead_beef), "x=deadbeef");
    assert_eq!(hexadecimal(usize::MAX), format!("x={:x}", usize::MAX));
}

#[test]
fn status_is_printed_in_hexadecimal() {
    let mut out = Report::new();
    out.push_str("status ");
    push_status(&mut out, Status(0x1f));
    assert_eq!(text(&out), "status 0x1f");
}

#[test]
fn out_of_memory_report() {
    let fatal = Fatal::OutOfMemory { size: 16, align: 8 };
    assert_eq!(text(&fatal.report()), "out of memory, size 16, aligned 8");
    let fatal = Fatal::OutOfMemory { size: 0, align: 4096 };
    assert_eq!(text(&fatal.report()), "out of memory, size 0, aligned 4096");
}

#[test]
fn longest_reports_are_not_cut() {
    let fatal = Fatal::OutOfMemory { size: usize::MAX, align: usize::MAX };
    assert_eq!(
        text(&fatal.report()),
        format!("out of memory, size {}, aligned {}", usize::MAX, usize::MAX)
    );
    let fatal = Fatal::ReleaseFailed { status: Status(usize::MAX) };
    assert_eq!(
        text(&fatal.report()),
        format!("Allocator failed here at dealloc... Status {:#x}", usize::MAX)
    );
}

#[test]
fn release_failed_report() {
    let fatal = Fatal::ReleaseFailed { status: Status(ERROR_BIT | 2) };
    assert_eq!(
        text(&fatal.report()),
        format!("Allocator failed here at dealloc... Status {:#x}", ERROR_BIT | 2)
    );
}

#[test]
fn protocol_missing_report() {
    let fatal = Fatal::ProtocolMissing { status: Status(0x0e) };
    assert_eq!(text(&fatal.report()), "Status: 0xe");
}

#[test]
fn main_failed_report() {
    let fatal = Fatal::MainFailed { status: Status(3) };
    assert_eq!(text(&fatal.report()), "main failed returning status 0x3");
}
