//! Field getters shared by every resource: strings into caller buffers,
//! counts, and indexed access to labels and properties.
//!
//! Collections are read as `_count` plus `_at(index)`. Properties are kept
//! in ascending key order, so an index names the same entry across the
//! count, key and value calls.

use vstd::prelude::*;

use crate::error::{code_value, fail, LastError, NominalErrorCode};
use crate::handles::{failed_with, index_error, index_msg, lookup_step};
use crate::sorted::{keys_sorted, SortedMap};
use crate::strings::{str_field_spec, opt_str_field_spec, str_out_failed, write_str_field, StrOut};

verus! {

/// A getter failure that writes no out-parameter.
pub fn str_failed(code: i32) -> (r: StrOut)
    ensures
        r.code == code,
        r.needed is None,
        r.present is None,
        r.bytes is None,
{
    StrOut { code, needed: None, present: None, bytes: None }
}

/// What a string getter returns for the object under `h`: its field
/// written into the caller buffer, or the invalid-handle failure.
pub open spec fn str_getter<T>(
    reg: Map<i32, T>,
    h: i32,
    kind: Seq<char>,
    field: spec_fn(T) -> Seq<char>,
    buf_present: bool,
    cap: u32,
    r: StrOut,
    old_err: Seq<char>,
    new_err: Seq<char>,
) -> bool {
    match lookup_step(reg, h, kind) {
        Ok(v) => str_field_spec(field(v), buf_present, cap as u64, r, old_err, new_err),
        Err(f) => str_out_failed(r, f.0) && new_err == f.1,
    }
}

/// [`str_getter`] for an optional field: also reports presence.
pub open spec fn opt_str_getter<T>(
    reg: Map<i32, T>,
    h: i32,
    kind: Seq<char>,
    field: spec_fn(T) -> Option<Seq<char>>,
    buf_present: bool,
    cap: u32,
    r: StrOut,
    old_err: Seq<char>,
    new_err: Seq<char>,
) -> bool {
    match lookup_step(reg, h, kind) {
        Ok(v) => opt_str_field_spec(field(v), buf_present, cap as u64, r, old_err, new_err),
        Err(f) => str_out_failed(r, f.0) && new_err == f.1,
    }
}

/// What a getter of one plain value returns: the value, the
/// null-out-parameter failure, or the invalid-handle failure.
pub open spec fn value_getter<T, V>(
    reg: Map<i32, T>,
    h: i32,
    kind: Seq<char>,
    field: spec_fn(T) -> V,
    out_present: bool,
    null_msg: Seq<char>,
    r: Result<V, i32>,
    old_err: Seq<char>,
    new_err: Seq<char>,
) -> bool {
    match lookup_step(reg, h, kind) {
        Ok(v) => if out_present {
            r == Ok::<V, i32>(field(v)) && new_err == old_err
        } else {
            r matches Err(c) && failed_with(c, new_err, (NominalErrorCode::NullArgument, null_msg))
        },
        Err(f) => r matches Err(c) && failed_with(c, new_err, f),
    }
}

/// What a `_count` getter returns: the collection size (truncated to 32
/// bits, as the boundary carries it).
pub open spec fn count_getter<T>(
    reg: Map<i32, T>,
    h: i32,
    kind: Seq<char>,
    count: spec_fn(T) -> nat,
    out_present: bool,
    r: Result<u32, i32>,
    old_err: Seq<char>,
    new_err: Seq<char>,
) -> bool {
    value_getter(reg, h, kind, |v: T| count(v) as u32, out_present, "out_count must not be null"@, r, old_err, new_err)
}

/// What an indexed string getter returns: the item at `index` written into
/// the caller buffer, or the out-of-range or invalid-handle failure.
pub open spec fn indexed_str_getter<T>(
    reg: Map<i32, T>,
    h: i32,
    kind: Seq<char>,
    items: spec_fn(T) -> Seq<Seq<char>>,
    index: i32,
    buf_present: bool,
    cap: u32,
    r: StrOut,
    old_err: Seq<char>,
    new_err: Seq<char>,
) -> bool {
    match lookup_step(reg, h, kind) {
        Ok(v) => indexed_str_spec(items(v), index, buf_present, cap, r, old_err, new_err),
        Err(f) => str_out_failed(r, f.0) && new_err == f.1,
    }
}

/// The item at `index` of `items` written into the caller buffer, or the
/// out-of-range failure.
pub open spec fn indexed_str_spec(
    items: Seq<Seq<char>>,
    index: i32,
    buf_present: bool,
    cap: u32,
    r: StrOut,
    old_err: Seq<char>,
    new_err: Seq<char>,
) -> bool {
    if 0 <= index < items.len() {
        str_field_spec(items[index as int], buf_present, cap as u64, r, old_err, new_err)
    } else {
        str_out_failed(r, NominalErrorCode::IndexOutOfRange) && new_err == index_msg(index, items.len())
    }
}

/// Writes a collection size to the count out-parameter: the shared
/// prologue of every `_count` getter.
pub fn write_count(err: &mut LastError, count: usize, out_present: bool) -> (r: Result<u32, i32>)
    ensures
        out_present ==> r == Ok::<u32, i32>(count as u32) && final(err)@ == old(err)@,
        !out_present ==> (r matches Err(c) && failed_with(
            c,
            final(err)@,
            (NominalErrorCode::NullArgument, "out_count must not be null"@),
        )),
{
    if !out_present {
        proof { reveal_strlit("out_count must not be null"); }
        return Err(fail(err, NominalErrorCode::NullArgument, String::from_str("out_count must not be null")));
    }
    Ok(#[verifier::truncate] (count as u32))
}

/// Records a null-out-parameter failure with `message`.
pub fn fail_null(err: &mut LastError, message: &str) -> (r: i32)
    requires
        message@.len() > 0,
    ensures
        failed_with(r, final(err)@, (NominalErrorCode::NullArgument, message@)),
{
    fail(err, NominalErrorCode::NullArgument, message.to_string())
}

/// Writes the string at `index` of `items` into the caller buffer.
pub fn write_item_at(err: &mut LastError, items: &Vec<String>, index: i32, buf_present: bool, cap: u32) -> (r: StrOut)
    ensures
        indexed_str_spec(crate::sorted::strings_view(items@), index, buf_present, cap, r, old(err)@, final(err)@),
{
    if index < 0 || index as usize >= items.len() {
        let code = index_error(err, index, items.len());
        return str_failed(code);
    }
    write_str_field(err, items[index as usize].as_str(), buf_present, cap as u64)
}

/// The keys of a property map, in ascending order.
pub open spec fn prop_keys(m: Seq<(Seq<char>, Seq<char>)>) -> Seq<Seq<char>> {
    m.map_values(|e: (Seq<char>, Seq<char>)| e.0)
}

/// The values of a property map, in ascending key order.
pub open spec fn prop_values(m: Seq<(Seq<char>, Seq<char>)>) -> Seq<Seq<char>> {
    m.map_values(|e: (Seq<char>, Seq<char>)| e.1)
}

/// The property at `index`, in sorted-key order, so that `index` means the
/// same entry across the count, key and value calls.
pub fn property_at<'a>(err: &mut LastError, props: &'a SortedMap<String>, index: i32) -> (r: Result<(&'a str, &'a str), i32>)
    ensures
        0 <= index < props@.len() ==> (r matches Ok(kv) && kv.0@ == props@[index as int].0 && kv.1@
            == props@[index as int].1) && final(err)@ == old(err)@,
        !(0 <= index < props@.len()) ==> (r matches Err(c) && failed_with(
            c,
            final(err)@,
            (NominalErrorCode::IndexOutOfRange, index_msg(index, props@.len())),
        )),
{
    let n = props.len();
    if index < 0 || index as usize >= n {
        return Err(index_error(err, index, n));
    }
    Ok((props.key_at(index as usize), props.value_at(index as usize).as_str()))
}

/// Writes the key of the property at `index` into the caller buffer.
pub fn write_property_key_at(err: &mut LastError, props: &SortedMap<String>, index: i32, buf_present: bool, cap: u32) -> (r: StrOut)
    ensures
        indexed_str_spec(prop_keys(props@), index, buf_present, cap, r, old(err)@, final(err)@),
{
    match property_at(err, props, index) {
        Ok(kv) => write_str_field(err, kv.0, buf_present, cap as u64),
        Err(code) => str_failed(code),
    }
}

/// Writes the value of the property at `index` into the caller buffer.
pub fn write_property_value_at(err: &mut LastError, props: &SortedMap<String>, index: i32, buf_present: bool, cap: u32) -> (r: StrOut)
    ensures
        indexed_str_spec(prop_values(props@), index, buf_present, cap, r, old(err)@, final(err)@),
{
    match property_at(err, props, index) {
        Ok(kv) => write_str_field(err, kv.1, buf_present, cap as u64),
        Err(code) => str_failed(code),
    }
}

/// Writes an optional string field into the caller buffer and reports
/// whether it is present.
pub fn write_opt_string(err: &mut LastError, value: &Option<String>, buf_present: bool, cap: u32) -> (r: StrOut)
    ensures
        opt_str_field_spec(crate::staging::opt_view(*value), buf_present, cap as u64, r, old(err)@, final(err)@),
{
    match value {
        Some(v) => crate::strings::write_opt_str_field(err, Some(v.as_str()), buf_present, cap as u64),
        None => crate::strings::write_opt_str_field(err, None, buf_present, cap as u64),
    }
}

} // verus!
