//! Error codes, the last-error message, and how failures of the SDK and
//! caught panics turn into codes.
//!
//! Action functions return `0` for success and a [`NominalErrorCode`] value
//! otherwise; the last-error getter and counting getters return a negated
//! code instead. After any failure the host fetches a human-readable message
//! with `nominal_last_error`.

use vstd::prelude::*;

use crate::strings::{write_str_out, StrOut, str_out_spec};

verus! {

/// Error codes returned by every function of the bridge.
#[derive(Debug, Clone, Copy, PartialEq, Eq, Structural)]
pub enum NominalErrorCode {
    /// Success.
    Success,
    /// A panic was caught at the boundary; report it as a bug in the bridge.
    Panic,
    /// A required pointer argument was null.
    NullArgument,
    /// A string argument was not valid UTF-8.
    InvalidUtf8,
    /// A handle was never issued or has already been freed.
    InvalidHandle,
    /// An argument was rejected before any request was sent.
    InvalidArgument,
    /// An index argument was out of range for the collection.
    IndexOutOfRange,
    /// The requested resource does not exist.
    NotFound,
    /// The Nominal API returned an error or an unreadable response.
    ApiError,
    /// Any other error from the SDK.
    SdkError,
    /// A caller buffer cannot hold the string plus its null terminator.
    BufferTooSmall,
}

/// The number that stands for a code at the boundary.
pub open spec fn code_value(code: NominalErrorCode) -> i32 {
    match code {
        NominalErrorCode::Success => 0,
        NominalErrorCode::Panic => 1,
        NominalErrorCode::NullArgument => 2,
        NominalErrorCode::InvalidUtf8 => 3,
        NominalErrorCode::InvalidHandle => 4,
        NominalErrorCode::InvalidArgument => 5,
        NominalErrorCode::IndexOutOfRange => 6,
        NominalErrorCode::NotFound => 7,
        NominalErrorCode::ApiError => 8,
        NominalErrorCode::SdkError => 9,
        NominalErrorCode::BufferTooSmall => 10,
    }
}

impl NominalErrorCode {
    /// The number that stands for this code at the boundary.
    pub fn code(&self) -> (r: i32)
        ensures
            r == code_value(*self),
    {
        match self {
            NominalErrorCode::Success => 0,
            NominalErrorCode::Panic => 1,
            NominalErrorCode::NullArgument => 2,
            NominalErrorCode::InvalidUtf8 => 3,
            NominalErrorCode::InvalidHandle => 4,
            NominalErrorCode::InvalidArgument => 5,
            NominalErrorCode::IndexOutOfRange => 6,
            NominalErrorCode::NotFound => 7,
            NominalErrorCode::ApiError => 8,
            NominalErrorCode::SdkError => 9,
            NominalErrorCode::BufferTooSmall => 10,
        }
    }
}

/// Distinct codes have distinct numbers, and only `Success` is zero.
pub proof fn lemma_code_values_distinct(a: NominalErrorCode, b: NominalErrorCode)
    ensures
        code_value(a) == code_value(b) <==> a == b,
        code_value(a) == 0 <==> a == NominalErrorCode::Success,
        0 <= code_value(a) <= 10,
{
}

/// The most recent error message, read back by `nominal_last_error`.
#[derive(Debug)]
pub struct LastError {
    message: String,
}

impl View for LastError {
    type V = Seq<char>;

    closed spec fn view(&self) -> Seq<char> {
        self.message@
    }
}

impl LastError {
    /// An empty message.
    pub fn new() -> (r: Self)
        ensures
            r@ == Seq::<char>::empty(),
    {
        LastError { message: String::new() }
    }

    /// The current message.
    pub fn message(&self) -> (r: &str)
        ensures
            r@ == self@,
    {
        self.message.as_str()
    }
}

/// Replaces the last-error message.
pub fn set_last_error(err: &mut LastError, message: String)
    ensures
        final(err)@ == message@,
{
    err.message = message;
}

/// Records `message` and returns `code` as an action function returns it.
pub fn fail(err: &mut LastError, code: NominalErrorCode, message: String) -> (r: i32)
    ensures
        r == code_value(code),
        final(err)@ == message@,
{
    set_last_error(err, message);
    code.code()
}

/// Records `message` and returns the negated code a counting getter returns.
pub fn fail_i64(err: &mut LastError, code: NominalErrorCode, message: String) -> (r: i64)
    ensures
        r == -(code_value(code) as int),
        final(err)@ == message@,
{
    set_last_error(err, message);
    let c = code.code();
    -(c as i64)
}

/// The variants of an SDK error that the bridge tells apart.
#[derive(Debug, Clone, Copy, PartialEq, Eq, Structural)]
pub enum SdkErrorKind {
    NotFound,
    Conjure,
    Rid,
    InvalidBearerToken,
    InvalidServiceUrl,
    Other,
}

/// A failed SDK call: which kind of error, and its rendered message.
#[derive(Debug)]
pub struct SdkFailure {
    pub kind: SdkErrorKind,
    pub message: String,
}

/// The code an SDK error maps onto.
pub open spec fn classify_spec(kind: SdkErrorKind) -> NominalErrorCode {
    match kind {
        SdkErrorKind::NotFound => NominalErrorCode::NotFound,
        SdkErrorKind::Conjure => NominalErrorCode::ApiError,
        SdkErrorKind::Rid => NominalErrorCode::InvalidArgument,
        SdkErrorKind::InvalidBearerToken => NominalErrorCode::InvalidArgument,
        SdkErrorKind::InvalidServiceUrl => NominalErrorCode::InvalidArgument,
        SdkErrorKind::Other => NominalErrorCode::SdkError,
    }
}

/// Maps an SDK error kind onto the flat code enum; unknown kinds are `SdkError`.
pub fn classify(kind: SdkErrorKind) -> (r: NominalErrorCode)
    ensures
        r == classify_spec(kind),
{
    match kind {
        SdkErrorKind::NotFound => NominalErrorCode::NotFound,
        SdkErrorKind::Conjure => NominalErrorCode::ApiError,
        SdkErrorKind::Rid => NominalErrorCode::InvalidArgument,
        SdkErrorKind::InvalidBearerToken => NominalErrorCode::InvalidArgument,
        SdkErrorKind::InvalidServiceUrl => NominalErrorCode::InvalidArgument,
        SdkErrorKind::Other => NominalErrorCode::SdkError,
    }
}

/// Records an SDK error's message and returns its code.
pub fn fail_sdk(err: &mut LastError, failure: SdkFailure) -> (r: i32)
    ensures
        r == code_value(classify_spec(failure.kind)),
        final(err)@ == failure.message@,
{
    let code = classify(failure.kind);
    fail(err, code, failure.message)
}

/// The message recorded for a caught panic, given its payload text when the
/// payload was a string.
pub fn panic_message(payload: Option<&str>) -> (r: String)
    ensures
        r@ == match payload {
            Some(s) => "panic in FFI layer: "@ + s@,
            None => "panic in FFI layer (non-string payload)"@,
        },
{
    match payload {
        Some(s) => {
            let mut m = String::from_str("panic in FFI layer: ");
            m.append(s);
            m
        },
        None => String::from_str("panic in FFI layer (non-string payload)"),
    }
}

/// What an action function returns when its body panicked.
pub fn fail_panic(err: &mut LastError, payload: Option<&str>) -> (r: i32)
    ensures
        r == code_value(NominalErrorCode::Panic),
        final(err)@ == panic_message_spec(payload),
{
    let m = panic_message(payload);
    fail(err, NominalErrorCode::Panic, m)
}

/// What a counting getter returns when its body panicked.
pub fn fail_panic_i64(err: &mut LastError, payload: Option<&str>) -> (r: i64)
    ensures
        r == -(code_value(NominalErrorCode::Panic) as int),
        final(err)@ == panic_message_spec(payload),
{
    let m = panic_message(payload);
    fail_i64(err, NominalErrorCode::Panic, m)
}

/// The text of [`panic_message`].
pub open spec fn panic_message_spec(payload: Option<&str>) -> Seq<char> {
    match payload {
        Some(s) => "panic in FFI layer: "@ + s@,
        None => "panic in FFI layer (non-string payload)"@,
    }
}

/// Writes the most recent error message into a caller buffer of `cap`
/// bytes (absent when the caller passed a null buffer). Returns the bytes
/// needed, excluding the terminator, and what to copy into the buffer; when
/// the message does not fit, nothing is copied. The message is not changed.
pub fn nominal_last_error(err: &LastError, buf_present: bool, cap: u64) -> (r: (i64, StrOut))
    ensures
        str_out_spec(err@, buf_present, cap, r.1),
        r.0 == r.1.needed.unwrap() as i64,
{
    let out = write_str_out(err.message(), buf_present, cap);
    let needed = out.needed.unwrap();
    (#[verifier::truncate] (needed as i64), out)
}

} // verus!
