use nominal_ffi::error::{LastError, NominalErrorCode};
use nominal_ffi::strings::{read_optional_str, read_required_str, write_opt_str_field, write_str_field, write_str_out};

fn write_to(value: &str, cap: u64) -> (i32, u64, Option<Vec<u8>>) {
    let out = write_str_out(value, true, cap);
    (out.code, out.needed.unwrap(), out.bytes)
}

#[test]
fn writes_string_and_null_terminator() {
    let (code, needed, bytes) = write_to("hello", 16);
    assert_eq!((code, needed), (0, 5));
    assert_eq!(&bytes.unwrap()[..6], b"hello\0");
}

#[test]
fn exact_fit_needs_room_for_terminator() {
    // cap == len: no room for the terminator, so nothing is written.
    let (code, needed, bytes) = write_to("hello", 5);
    assert_eq!(code, NominalErrorCode::BufferTooSmall.code());
    assert_eq!(needed, 5, "needed is reported even on failure");
    assert!(bytes.is_none(), "buffer must be untouched");

    // cap == len + 1 is the smallest buffer that fits.
    let (code, needed, bytes) = write_to("hello", 6);
    assert_eq!((code, needed), (0, 5));
    assert_eq!(&bytes.unwrap()[..6], b"hello\0");
}

#[test]
fn empty_string_writes_terminator_only() {
    let (code, needed, bytes) = write_to("", 4);
    assert_eq!((code, needed), (0, 0));
    assert_eq!(bytes.unwrap()[0], 0);
}

#[test]
fn multibyte_utf8_counts_bytes_not_chars() {
    let value = "héllo"; // 6 bytes, 5 chars
    let (code, needed, bytes) = write_to(value, 16);
    assert_eq!((code, needed), (0, 6));
    let bytes = bytes.unwrap();
    assert_eq!(&bytes[..6], value.as_bytes());
    assert_eq!(bytes[6], 0);
}

#[test]
fn null_buffer_is_a_size_query_not_an_error() {
    let out = write_str_out("hello", false, 0);
    assert_eq!((out.code, out.needed.unwrap()), (0, 5));
    assert!(out.bytes.is_none());
}

#[test]
fn buffer_too_small_sets_message_via_field_variant() {
    let mut err = LastError::new();
    let out = write_str_field(&mut err, "hello", true, 2);
    assert_eq!(out.code, NominalErrorCode::BufferTooSmall.code());
    assert_eq!(out.needed.unwrap(), 5);
    assert_eq!(err.message(), "buffer too small: need 5 bytes plus a null terminator, capacity is 2");
}

#[test]
fn optional_present_and_absent() {
    let mut err = LastError::new();
    let out = write_opt_str_field(&mut err, Some("hi"), true, 8);
    assert_eq!((out.code, out.needed.unwrap(), out.present.unwrap()), (0, 2, true));
    assert_eq!(&out.bytes.unwrap()[..3], b"hi\0");

    let out = write_opt_str_field(&mut err, None, true, 8);
    assert_eq!((out.code, out.needed.unwrap(), out.present.unwrap()), (0, 0, false));
}

#[test]
fn read_required_rejects_null() {
    let mut err = LastError::new();
    let code = read_required_str(&mut err, None, "token").unwrap_err();
    assert_eq!(code, NominalErrorCode::NullArgument.code());
    assert_eq!(err.message(), "argument 'token' must not be null");
}

#[test]
fn read_required_rejects_invalid_utf8() {
    let mut err = LastError::new();
    let bad = [0xFFu8, 0xFE];
    let code = read_required_str(&mut err, Some(&bad), "token").unwrap_err();
    assert_eq!(code, NominalErrorCode::InvalidUtf8.code());
    assert_eq!(err.message(), "argument 'token' is not valid UTF-8");
}

#[test]
fn read_optional_treats_null_and_empty_as_absent() {
    let mut err = LastError::new();
    assert_eq!(read_optional_str(&mut err, None, "x").unwrap(), None);
    assert_eq!(read_optional_str(&mut err, Some(b""), "x").unwrap(), None);
    assert_eq!(read_optional_str(&mut err, Some(b"abc"), "x").unwrap(), Some("abc".to_string()));
}

#[test]
fn retry_with_reported_size_succeeds() {
    let first = write_str_out("retry me", true, 3);
    assert_eq!(first.code, NominalErrorCode::BufferTooSmall.code());
    let needed = first.needed.unwrap();
    let second = write_str_out("retry me", true, needed + 1);
    assert_eq!(second.code, 0);
    assert_eq!(second.bytes.unwrap(), b"retry me\0".to_vec());
}

#[test]
fn field_writer_keeps_message_on_success() {
    let mut err = LastError::new();
    nominal_ffi::error::set_last_error(&mut err, "earlier".to_string());
    let out = write_str_field(&mut err, "fits", true, 5);
    assert_eq!(out.code, 0);
    assert_eq!(err.message(), "earlier");
}
