use uefi_bridge::status::{Status, ERROR_BIT, INVALID_PARAMETER, SUCCESS};

#[test]
fn success_is_zero() {
    assert_eq!(SUCCESS, 0);
    assert_eq!(Status::success(), Status(0));
    assert!(Status::success().is_success());
    assert!(!Status::success().is_error());
}

#[test]
fn error_bit_is_the_top_bit() {
    assert_eq!(ERROR_BIT, 1usize << (usize::BITS - 1));
    assert_eq!(ERROR_BIT.count_ones(), 1);
}

#[test]
fn invalid_parameter_is_error_two() {
    assert_eq!(INVALID_PARAMETER, (1usize << (usize::BITS - 1)) | 2);
    assert_eq!(Status::invalid_parameter(), Status(INVALID_PARAMETER));
    assert!(Status::invalid_parameter().is_error());
    assert!(!Status::invalid_parameter().is_success());
}

#[test]
fn warning_is_neither_success_nor_error() {
    let warning = Status(1);
    assert!(!warning.is_success());
    assert!(!warning.is_error());
}

#[test]
fn error_starts_at_the_top_bit() {
    assert!(!Status(ERROR_BIT - 1).is_error());
    assert!(Status(ERROR_BIT).is_error());
    assert!(Status(usize::MAX).is_error());
}
