//! Strings crossing the boundary.
//!
//! Outgoing strings use a caller-supplied buffer: the byte count needed
//! (excluding the null terminator) is always reported, and the bytes plus a
//! terminator are copied only when the buffer can hold them. A null buffer
//! is the supported size query. Incoming strings are null-terminated bytes
//! that must be UTF-8; optional ones treat null and empty alike as absent.

use vstd::prelude::*;
use vstd::utf8::{decode_utf8, encode_utf8, valid_utf8};

use crate::error::{code_value, fail, set_last_error, LastError, NominalErrorCode};
use crate::text::{append_decimal, decimal};

verus! {

broadcast use vstd::utf8::group_utf8_lib;

/// The outcome of a string getter: its status code and what to store in
/// each out-parameter. `None` leaves that out-parameter untouched.
#[derive(Debug)]
pub struct StrOut {
    pub code: i32,
    /// The byte count needed, excluding the terminator.
    pub needed: Option<u64>,
    /// Whether an optional value is present.
    pub present: Option<bool>,
    /// The value's bytes followed by a null terminator, to copy into the buffer.
    pub bytes: Option<Vec<u8>>,
}

/// The UTF-8 bytes of a text.
pub open spec fn utf8_bytes(s: Seq<char>) -> Seq<u8> {
    encode_utf8(s)
}

/// What [`write_str_out`] returns for `value`.
pub open spec fn str_out_spec(value: Seq<char>, buf_present: bool, cap: u64, out: StrOut) -> bool {
    let b = utf8_bytes(value);
    &&& out.needed == Some(b.len() as u64)
    &&& out.present is None
    &&& if !buf_present {
        out.code == 0 && out.bytes is None
    } else if b.len() >= cap {
        out.code == code_value(NominalErrorCode::BufferTooSmall) && out.bytes is None
    } else {
        out.code == 0 && (out.bytes matches Some(v) && v@ == b.push(0u8))
    }
}

/// A getter failure that writes no out-parameter.
pub open spec fn str_out_failed(out: StrOut, code: NominalErrorCode) -> bool {
    &&& out.code == code_value(code)
    &&& out.needed is None
    &&& out.present is None
    &&& out.bytes is None
}

/// The message recorded when a buffer is too small.
pub open spec fn too_small_msg(needed: u64, cap: u64) -> Seq<char> {
    "buffer too small: need "@ + decimal(needed as nat) + " bytes plus a null terminator, capacity is "@
        + decimal(cap as nat)
}

/// What [`write_str_field`] does: [`write_str_out`], plus a message when the
/// buffer is too small.
pub open spec fn str_field_spec(
    value: Seq<char>,
    buf_present: bool,
    cap: u64,
    out: StrOut,
    old_err: Seq<char>,
    new_err: Seq<char>,
) -> bool {
    &&& str_out_spec(value, buf_present, cap, out)
    &&& new_err == if out.code == code_value(NominalErrorCode::BufferTooSmall) {
        too_small_msg(out.needed.unwrap(), cap)
    } else {
        old_err
    }
}

/// What [`write_opt_str_field`] does: reports presence, then writes the value
/// or, when absent, the empty string.
pub open spec fn opt_str_field_spec(
    value: Option<Seq<char>>,
    buf_present: bool,
    cap: u64,
    out: StrOut,
    old_err: Seq<char>,
    new_err: Seq<char>,
) -> bool {
    let text = match value {
        Some(v) => v,
        None => Seq::<char>::empty(),
    };
    &&& out.present == Some(value is Some)
    &&& str_field_spec(
        text,
        buf_present,
        cap,
        StrOut { code: out.code, needed: out.needed, present: None, bytes: out.bytes },
        old_err,
        new_err,
    )
}

/// Writes `value` (plus a null terminator) into a caller buffer of `cap`
/// bytes, or only reports its size when the buffer is null. Nothing is
/// written when `cap` cannot hold the bytes and the terminator. Does not
/// touch the last-error message.
pub fn write_str_out(value: &str, buf_present: bool, cap: u64) -> (r: StrOut)
    ensures
        str_out_spec(value@, buf_present, cap, r),
{
    let bytes = value.as_bytes();
    let len = bytes.len();
    let needed = len as u64;
    if !buf_present {
        return StrOut { code: 0, needed: Some(needed), present: None, bytes: None };
    }
    if needed >= cap {
        return StrOut {
            code: NominalErrorCode::BufferTooSmall.code(),
            needed: Some(needed),
            present: None,
            bytes: None,
        };
    }
    let mut v = vstd::slice::slice_to_vec(bytes);
    v.push(0u8);
    StrOut { code: 0, needed: Some(needed), present: None, bytes: Some(v) }
}

/// [`write_str_out`] plus a last-error message when the buffer is too small:
/// what every string getter uses.
pub fn write_str_field(err: &mut LastError, value: &str, buf_present: bool, cap: u64) -> (r: StrOut)
    ensures
        str_field_spec(value@, buf_present, cap, r, old(err)@, final(err)@),
{
    let out = write_str_out(value, buf_present, cap);
    if out.code == NominalErrorCode::BufferTooSmall.code() {
        let mut m = String::from_str("buffer too small: need ");
        append_decimal(&mut m, out.needed.unwrap());
        m.append(" bytes plus a null terminator, capacity is ");
        append_decimal(&mut m, cap);
        set_last_error(err, m);
    }
    out
}

/// [`write_str_field`] for optional strings: also reports presence. An
/// absent value reports 0 bytes needed and writes an empty string.
pub fn write_opt_str_field(err: &mut LastError, value: Option<&str>, buf_present: bool, cap: u64) -> (r: StrOut)
    ensures
        opt_str_field_spec(
            match value {
                Some(v) => Some(v@),
                None => None,
            },
            buf_present,
            cap,
            r,
            old(err)@,
            final(err)@,
        ),
{
    let present = value.is_some();
    let text: &str = match value {
        Some(v) => v,
        None => "",
    };
    proof {
        reveal_strlit("");
        assert(value is None ==> text@ =~= Seq::<char>::empty());
    }
    let out = write_str_field(err, text, buf_present, cap);
    StrOut { code: out.code, needed: out.needed, present: Some(present), bytes: out.bytes }
}

/// The bytes of an incoming string argument, as the spec sees them.
pub open spec fn arg_view(arg: Option<&[u8]>) -> Option<Seq<u8>> {
    match arg {
        Some(b) => Some(b@),
        None => None,
    }
}

/// What reading a required string argument gives: its text, or the code
/// for a null pointer or invalid UTF-8.
pub open spec fn required_spec(arg: Option<Seq<u8>>) -> Result<Seq<char>, NominalErrorCode> {
    match arg {
        None => Err(NominalErrorCode::NullArgument),
        Some(b) => if valid_utf8(b) {
            Ok(decode_utf8(b))
        } else {
            Err(NominalErrorCode::InvalidUtf8)
        },
    }
}

/// The message recorded when reading a required argument fails.
pub open spec fn required_msg(arg: Option<Seq<u8>>, name: Seq<char>) -> Seq<char> {
    match arg {
        None => "argument '"@ + name + "' must not be null"@,
        Some(_) => "argument '"@ + name + "' is not valid UTF-8"@,
    }
}

/// What reading an optional string argument gives: null and empty are both
/// absent.
pub open spec fn optional_spec(arg: Option<Seq<u8>>) -> Result<Option<Seq<char>>, NominalErrorCode> {
    match arg {
        None => Ok(None),
        Some(_) => match required_spec(arg) {
            Ok(t) => if t.len() == 0 {
                Ok(None)
            } else {
                Ok(Some(t))
            },
            Err(c) => Err(c),
        },
    }
}

/// The effect of [`read_required_str`].
pub open spec fn read_required_post(
    arg: Option<Seq<u8>>,
    name: Seq<char>,
    r: Result<String, i32>,
    old_err: Seq<char>,
    new_err: Seq<char>,
) -> bool {
    match required_spec(arg) {
        Ok(t) => (r matches Ok(s) && s@ == t) && new_err == old_err,
        Err(c) => r == Err::<String, i32>(code_value(c)) && new_err == required_msg(arg, name),
    }
}

/// The effect of [`read_optional_str`].
pub open spec fn read_optional_post(
    arg: Option<Seq<u8>>,
    name: Seq<char>,
    r: Result<Option<String>, i32>,
    old_err: Seq<char>,
    new_err: Seq<char>,
) -> bool {
    match optional_spec(arg) {
        Ok(None) => r == Ok::<Option<String>, i32>(None) && new_err == old_err,
        Ok(Some(t)) => (r matches Ok(Some(s)) && s@ == t) && new_err == old_err,
        Err(c) => r == Err::<Option<String>, i32>(code_value(c)) && new_err == required_msg(arg, name),
    }
}

/// Decodes bytes as UTF-8 with `std::str::from_utf8`: `Some` exactly when the
/// bytes are valid UTF-8, holding the text they encode.
#[verifier::external_body]
fn utf8_str(bytes: &[u8]) -> (r: Option<&str>)
    ensures
        r is Some <==> valid_utf8(bytes@),
        r matches Some(s) ==> encode_utf8(s@) == bytes@,
{
    std::str::from_utf8(bytes).ok()
}

/// Reads a required incoming string argument (the bytes before its null
/// terminator, absent for a null pointer). On failure records a message
/// naming `name` and returns the code to hand back.
pub fn read_required_str(err: &mut LastError, arg: Option<&[u8]>, name: &str) -> (r: Result<String, i32>)
    ensures
        read_required_post(arg_view(arg), name@, r, old(err)@, final(err)@),
{
    match arg {
        None => {
            let mut m = String::from_str("argument '");
            m.append(name);
            m.append("' must not be null");
            Err(fail(err, NominalErrorCode::NullArgument, m))
        },
        Some(bytes) => match utf8_str(bytes) {
            Some(s) => {
                let owned = s.to_owned();
                proof {
                    assert(decode_utf8(encode_utf8(s@)) == s@);
                }
                Ok(owned)
            },
            None => {
                let mut m = String::from_str("argument '");
                m.append(name);
                m.append("' is not valid UTF-8");
                Err(fail(err, NominalErrorCode::InvalidUtf8, m))
            },
        },
    }
}

/// Reads an optional incoming string argument: null or empty both mean absent.
pub fn read_optional_str(err: &mut LastError, arg: Option<&[u8]>, name: &str) -> (r: Result<Option<String>, i32>)
    ensures
        read_optional_post(arg_view(arg), name@, r, old(err)@, final(err)@),
{
    if arg.is_none() {
        return Ok(None);
    }
    match read_required_str(err, arg, name) {
        Ok(value) => {
            if value.as_str().is_empty() {
                Ok(None)
            } else {
                Ok(Some(value))
            }
        },
        Err(code) => Err(code),
    }
}

} // verus!
