use api_error::{ApiError, CoreApiError, Error, ErrorCode, StorageError, UnreachableError};

#[test]
fn storage_wraps_the_text() {
    let e = Error::storage("disk full");
    assert_eq!(e.error_type, "storage_error");
    assert_eq!(e.code, ErrorCode::StorageError);
    assert_eq!(e.code.value(), 300);
    assert_eq!(e.message, "disk full");
}

#[test]
fn core_api_wraps_the_text() {
    let e = Error::core_api("timeout");
    assert_eq!(e.error_type, "core_api_error");
    assert_eq!(e.code, ErrorCode::CoreApiError);
    assert_eq!(e.code.value(), 100);
    assert_eq!(e.message, "timeout");
}

#[test]
fn storage_and_core_api_accept_an_empty_text() {
    let s = Error::storage("");
    assert_eq!(s.error_type, "storage_error");
    assert_eq!(s.message, "");
    let c = Error::core_api("");
    assert_eq!(c.error_type, "core_api_error");
    assert_eq!(c.message, "");
}

#[test]
fn storage_keeps_text_that_is_not_ascii() {
    let e = Error::storage("\u{434}\u{438}\u{441}\u{43a} \u{1F4BE}");
    assert_eq!(e.message, "\u{434}\u{438}\u{441}\u{43a} \u{1F4BE}");
}

#[test]
fn storage_error_supplies_its_fields() {
    let kind = StorageError::new("lost connection");
    assert_eq!(kind.error_type(), "storage_error");
    assert_eq!(kind.code(), ErrorCode::StorageError);
    assert_eq!(kind.description(), "lost connection");
    assert_eq!(kind.message(), "lost connection");
}

#[test]
fn core_api_error_supplies_its_fields() {
    let kind = CoreApiError::new("bad gateway");
    assert_eq!(kind.error_type(), "core_api_error");
    assert_eq!(kind.code(), ErrorCode::CoreApiError);
    assert_eq!(kind.description(), "bad gateway");
    assert_eq!(kind.message(), "bad gateway");
}

#[test]
fn conversion_asks_the_kind_for_each_field() {
    let kind = StorageError::new("x");
    let (tag, code, message) = (kind.error_type(), kind.code(), kind.message());
    let e = Error::from(kind);
    assert_eq!(e.error_type, tag);
    assert_eq!(e.code, code);
    assert_eq!(e.message, message);
}

#[test]
fn into_is_the_same_conversion() {
    let e: Error = CoreApiError::new("slow").into();
    assert_eq!(e.error_type, "core_api_error");
    assert_eq!(e.code.value(), 100);
    assert_eq!(e.message, "slow");
}

#[test]
fn converting_twice_gives_the_same_envelope() {
    let a = Error::from(StorageError::new("disk full"));
    let b = Error::from(StorageError::new("disk full"));
    assert_eq!(a.error_type, b.error_type);
    assert_eq!(a.code, b.code);
    assert_eq!(a.message, b.message);
    assert_eq!(a, b);
    assert_eq!(format!("{:?}", a), format!("{:?}", b));

    let c = Error::from(UnreachableError);
    let d = Error::from(UnreachableError);
    assert_eq!(c, d);
}

#[test]
fn envelopes_differ_when_a_field_differs() {
    let a = Error::storage("disk full");
    assert_ne!(a, Error::storage("disk empty"));
    assert_ne!(a, Error::core_api("disk full"));
    let b = Error {
        error_type: String::from("storage_error"),
        code: ErrorCode::TokenNotFound,
        message: String::from("disk full"),
    };
    assert_ne!(a, b);
    let c = Error {
        error_type: String::from("storage_error"),
        code: ErrorCode::StorageError,
        message: String::from("disk full"),
    };
    assert_eq!(a, c);
}

#[test]
fn unreachable_is_code_zero_with_the_fixed_text() {
    let e = Error::from(UnreachableError);
    assert_eq!(e.error_type, "api_error");
    assert_eq!(e.code, ErrorCode::UnreacheableError);
    assert_eq!(e.code.value(), 0);
    assert_eq!(
        e.message,
        "Unreachable error; you should never see this message, please contact us at https://github.com/matter-labs/zksync with a report"
    );
    assert!(e.message.contains("https://github.com/matter-labs/zksync"));
}

#[test]
fn unreachable_supplies_its_fields() {
    let kind = UnreachableError;
    assert_eq!(kind.error_type(), "api_error");
    assert_eq!(kind.code().value(), 0);
    assert_eq!(kind.message(), kind.description());
    assert!(kind.description().contains("report"));
}
