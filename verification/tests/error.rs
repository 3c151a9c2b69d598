use virt::error::{check_ret, ErrorLevel, VIR_ERR_ERROR, VIR_ERR_NONE, VIR_ERR_WARNING};
use virt::{Error, VirtError};

fn record(level: u32, message: &str) -> VirtError {
    VirtError { code: 38, domain: 7, level, message: message.to_string() }
}

#[test]
fn level_maps_known_severities() {
    assert_eq!(record(VIR_ERR_NONE, "").level(), ErrorLevel::NoError);
    assert_eq!(record(VIR_ERR_WARNING, "").level(), ErrorLevel::Warning);
    assert_eq!(record(VIR_ERR_ERROR, "").level(), ErrorLevel::Error);
    assert_eq!(record(9, "").level(), ErrorLevel::Unknown);
}

#[test]
fn level_text_matches_severity() {
    assert_eq!(record(0, "").level_text(), "No error");
    assert_eq!(record(1, "").level_text(), "Warning");
    assert_eq!(record(2, "").level_text(), "Error");
    assert_eq!(record(77, "").level_text(), "Unknown error level");
}

#[test]
fn virt_error_display_joins_level_and_message() {
    let e = record(2, "operation failed: domain not found");
    assert_eq!(e.display(), "Error: operation failed: domain not found");
    let w = record(1, "deprecated flag");
    assert_eq!(w.display(), "Warning: deprecated flag");
}

#[test]
fn virt_error_message_accessor() {
    let e = record(2, "boom");
    assert_eq!(e.message(), "boom");
}

#[test]
fn error_display_per_variant() {
    assert_eq!(Error::VirtError(record(2, "boom")).display(), "Error: boom");
    assert_eq!(Error::InvalidUri(3).display(), "Invalid URI");
    assert_eq!(Error::InvalidXml(0).display(), "Invalid XML");
    assert_eq!(Error::InvalidName(1).display(), "Invalid name");
    assert_eq!(Error::Utf8Error.display(), "String is not valid UTF-8");
}

#[test]
fn error_from_wraps_library_record() {
    let e = Error::from(record(2, "wrapped"));
    match e {
        Error::VirtError(inner) => assert_eq!(inner.message, "wrapped"),
        other => panic!("unexpected variant: {:?}", other),
    }
}

#[test]
fn check_ret_treats_minus_one_as_failure() {
    let e = check_ret(-1, Some(record(2, "failed"))).unwrap_err();
    assert_eq!(e.message, "failed");
}

#[test]
fn check_ret_treats_other_values_as_success() {
    assert!(check_ret(0, None).is_ok());
    assert!(check_ret(1, None).is_ok());
    assert!(check_ret(42, None).is_ok());
}
