use nominal_ffi::error::{
    classify, fail, fail_i64, fail_panic, fail_panic_i64, fail_sdk, nominal_last_error, panic_message,
    set_last_error, LastError, NominalErrorCode, SdkErrorKind, SdkFailure,
};

fn last_error(err: &LastError) -> String {
    let (needed, _) = nominal_last_error(err, false, 0);
    let (second, out) = nominal_last_error(err, true, needed as u64 + 1);
    assert_eq!(second, needed);
    let bytes = out.bytes.expect("message written");
    assert_eq!(bytes[needed as usize], 0, "missing null terminator");
    String::from_utf8(bytes[..needed as usize].to_vec()).unwrap()
}

#[test]
fn fail_sets_message_and_returns_code() {
    let mut err = LastError::new();
    let code = fail(&mut err, NominalErrorCode::InvalidHandle, "no such handle".to_string());
    assert_eq!(code, NominalErrorCode::InvalidHandle.code());

    let (needed, out) = nominal_last_error(&err, true, 64);
    assert_eq!(needed, "no such handle".len() as i64);
    let written = out.bytes.expect("written");
    assert_eq!(&written[..needed as usize], b"no such handle");
    assert_eq!(written[needed as usize], 0, "null terminator expected");
}

#[test]
fn fail_i64_negates_code() {
    let mut err = LastError::new();
    assert_eq!(
        fail_i64(&mut err, NominalErrorCode::InvalidHandle, "x".to_string()),
        -(NominalErrorCode::InvalidHandle.code() as i64)
    );
}

#[test]
fn guard_converts_panic_to_error_code() {
    let mut err = LastError::new();
    let code = fail_panic(&mut err, Some("boom"));
    assert_eq!(code, NominalErrorCode::Panic.code());
    let message = last_error(&err);
    assert!(message.contains("boom"), "got: {message}");
}

#[test]
fn guard_i64_converts_panic_to_negated_code() {
    let mut err = LastError::new();
    let value = fail_panic_i64(&mut err, Some("boom"));
    assert_eq!(value, -(NominalErrorCode::Panic.code() as i64));
}

#[test]
fn last_error_reports_needed_bytes_when_buffer_too_small() {
    let mut err = LastError::new();
    set_last_error(&mut err, "a longer message than four bytes".to_string());
    let (needed, out) = nominal_last_error(&err, true, 4);
    assert_eq!(needed, "a longer message than four bytes".len() as i64);
    assert!(out.bytes.is_none(), "buffer must be untouched when too small");
}

#[test]
fn error_code_numbers() {
    let codes = [
        NominalErrorCode::Success,
        NominalErrorCode::Panic,
        NominalErrorCode::NullArgument,
        NominalErrorCode::InvalidUtf8,
        NominalErrorCode::InvalidHandle,
        NominalErrorCode::InvalidArgument,
        NominalErrorCode::IndexOutOfRange,
        NominalErrorCode::NotFound,
        NominalErrorCode::ApiError,
        NominalErrorCode::SdkError,
        NominalErrorCode::BufferTooSmall,
    ];
    for (i, c) in codes.iter().enumerate() {
        assert_eq!(c.code(), i as i32);
    }
}

#[test]
fn sdk_errors_map_onto_codes() {
    assert_eq!(classify(SdkErrorKind::NotFound), NominalErrorCode::NotFound);
    assert_eq!(classify(SdkErrorKind::Conjure), NominalErrorCode::ApiError);
    assert_eq!(classify(SdkErrorKind::Rid), NominalErrorCode::InvalidArgument);
    assert_eq!(classify(SdkErrorKind::InvalidBearerToken), NominalErrorCode::InvalidArgument);
    assert_eq!(classify(SdkErrorKind::InvalidServiceUrl), NominalErrorCode::InvalidArgument);
    assert_eq!(classify(SdkErrorKind::Other), NominalErrorCode::SdkError);

    let mut err = LastError::new();
    let code = fail_sdk(&mut err, SdkFailure { kind: SdkErrorKind::Conjure, message: "403 Forbidden".to_string() });
    assert_eq!(code, 8);
    assert_eq!(last_error(&err), "403 Forbidden");
}

#[test]
fn panic_messages() {
    assert_eq!(panic_message(Some("boom")), "panic in FFI layer: boom");
    assert_eq!(panic_message(None), "panic in FFI layer (non-string payload)");
    let mut err = LastError::new();
    assert_eq!(fail_panic(&mut err, None), 1);
    assert_eq!(last_error(&err), "panic in FFI layer (non-string payload)");
}
