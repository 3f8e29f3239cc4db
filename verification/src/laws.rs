//! Properties of the bridge that span several calls.

use vstd::prelude::*;

use crate::error::{code_value, panic_message_spec, NominalErrorCode};
use crate::fields::{prop_keys, prop_values};
use crate::handles::{failed_with, index_msg, invalid_handle_msg, lookup_step};
use crate::search::base_filters;
use crate::sorted::{has_key, inserted, key_lt, keys_sorted, lemma_inserted_lookup, lemma_key_order, lookup};
use crate::staging::{optional_step, property_step};
use crate::strings::{optional_spec, required_msg, str_out_spec, too_small_msg, utf8_bytes, StrOut};
use crate::text::{decimal, signed_decimal};
use crate::actions::flat_update_step;
use crate::channel::channel_search_step;
use crate::handles::edit_post;
use crate::ingest::{relative_step, TabularIngestParams, TimestampView};
use crate::staging::{flat_update_request, update_commit_step, UpdateParams};
use crate::time::MillisArg;
use crate::workbook::{workbook_commit_step, workbook_search_step, NominalWorkbookScopeType, WorkbookCreateParams};
use crate::search::{catalog_search_step, FilterView};
use crate::run::{run_create_step, run_search_step};
use crate::actions::flat_create_step;
use crate::channel::{data_type_value, set_metadata_step};
use crate::ingest::{ingest_step, TabularFormat};
use crate::staging::{create_commit_step, flat_create_request, CreateParams};

verus! {

/// An object stored under a handle is what a lookup of that handle finds.
pub proof fn lemma_lookup_after_register<T>(m: Map<i32, T>, h: i32, v: T, kind: Seq<char>)
    ensures
        lookup_step(m.insert(h, v), h, kind) == Ok::<T, (NominalErrorCode, Seq<char>)>(v),
{
}

/// Once freed, a handle is invalid: looking it up, or freeing it again,
/// fails with the invalid-handle code and a message naming the handle.
pub proof fn lemma_lookup_after_free<T>(m: Map<i32, T>, h: i32, kind: Seq<char>)
    ensures
        lookup_step(m.remove(h), h, kind) == Err::<T, (NominalErrorCode, Seq<char>)>(
            (NominalErrorCode::InvalidHandle, invalid_handle_msg(kind, h)),
        ),
        !m.remove(h).contains_key(h),
{
}

/// Freeing one handle leaves every other handle's object where it was.
pub proof fn lemma_free_keeps_others<T>(m: Map<i32, T>, h: i32, other: i32, kind: Seq<char>)
    requires
        other != h,
    ensures
        lookup_step(m.remove(h), other, kind) == lookup_step(m, other, kind),
{
}

/// After a call fails, the last-error getter reports the failure's message:
/// its byte count always, and its bytes plus a terminator whenever the
/// buffer is present and larger than that count.
pub proof fn lemma_failure_message_read_back(
    code: i32,
    err_after: Seq<char>,
    f: (NominalErrorCode, Seq<char>),
    buf_present: bool,
    cap: u64,
    out: StrOut,
)
    requires
        failed_with(code, err_after, f),
        str_out_spec(err_after, buf_present, cap, out),
    ensures
        code == code_value(f.0),
        out.needed == Some(utf8_bytes(f.1).len() as u64),
        buf_present && utf8_bytes(f.1).len() < cap ==> out.code == 0 && (out.bytes matches Some(b) && b@ == utf8_bytes(
            f.1,
        ).push(0u8)),
        buf_present && utf8_bytes(f.1).len() >= cap ==> out.bytes is None,
{
}

/// The caller-buffer protocol: a first call reports the byte count needed
/// (a null buffer being the size query); a second call with a buffer one
/// byte larger than that count succeeds and receives the bytes and the
/// terminator.
pub proof fn lemma_retry_with_needed_capacity(value: Seq<char>, buf_present: bool, cap: u64, first: StrOut, second: StrOut)
    requires
        str_out_spec(value, buf_present, cap, first),
        utf8_bytes(value).len() < u64::MAX,
        str_out_spec(value, true, (first.needed.unwrap() + 1) as u64, second),
    ensures
        second.code == 0,
        second.bytes matches Some(b) && b@ == utf8_bytes(value).push(0u8),
        second.needed == first.needed,
{
}

/// A too-small buffer is never written: the bytes are handed over only
/// together with room for the terminator.
pub proof fn lemma_small_buffer_untouched(value: Seq<char>, cap: u64, out: StrOut)
    requires
        str_out_spec(value, true, cap, out),
        utf8_bytes(value).len() >= cap,
    ensures
        out.bytes is None,
        out.code == code_value(NominalErrorCode::BufferTooSmall),
{
}

/// An optional string argument that is null and one that is empty both
/// read as absent.
pub proof fn lemma_null_and_empty_are_absent(name: Seq<char>)
    ensures
        optional_spec(None) == Ok::<Option<Seq<char>>, NominalErrorCode>(None),
        optional_spec(Some(Seq::<u8>::empty())) == Ok::<Option<Seq<char>>, NominalErrorCode>(None),
        optional_step(None, name) == optional_step(Some(Seq::<u8>::empty()), name),
{
    let e = Seq::<u8>::empty();
    assert(vstd::utf8::valid_utf8(e));
    assert(vstd::utf8::decode_utf8(e).len() == 0);
}

/// A search with no filter arguments has no filters, so it matches
/// everything, the same as a list; a property key without a value (or a
/// value without a key) is refused.
pub proof fn lemma_search_filters(t: Option<Seq<char>>, l: Option<Seq<char>>, k: Seq<char>, v: Seq<char>)
    ensures
        base_filters(None, None, None, None) == Ok::<Seq<crate::search::FilterView>, (NominalErrorCode, Seq<char>)>(
            Seq::empty(),
        ),
        base_filters(t, l, Some(k), None) is Err,
        base_filters(t, l, None, Some(v)) is Err,
        base_filters(t, l, Some(k), Some(v)) is Ok,
{
    assert(Seq::<crate::search::FilterView>::empty() + Seq::<crate::search::FilterView>::empty() =~= Seq::<
        crate::search::FilterView,
    >::empty());
}

/// Property indices are stable: in a property map the key and value read at
/// one index belong to one entry, and distinct indices name distinct keys.
pub proof fn lemma_property_index_stable(m: Seq<(Seq<char>, Seq<char>)>, i: int, j: int)
    requires
        keys_sorted(m),
        0 <= i < m.len(),
        0 <= j < m.len(),
    ensures
        (prop_keys(m)[i], prop_values(m)[i]) == m[i],
        i != j ==> prop_keys(m)[i] != prop_keys(m)[j],
        i < j ==> key_lt(prop_keys(m)[i], prop_keys(m)[j]),
{
    if i < j {
        assert(key_lt(m[i].0, m[j].0));
        lemma_key_order(m[i].0, m[j].0);
    } else if j < i {
        assert(key_lt(m[j].0, m[i].0));
        lemma_key_order(m[j].0, m[i].0);
    }
}

/// The decimal text of a number has at least one digit.
proof fn lemma_decimal_nonempty(n: nat)
    ensures
        decimal(n).len() >= 1,
        signed_decimal(n as int).len() >= 1,
        signed_decimal(-(n as int)).len() >= 1,
{
}

/// A text that is not empty has UTF-8 bytes.
proof fn lemma_utf8_nonempty(s: Seq<char>)
    requires
        s.len() > 0,
    ensures
        utf8_bytes(s).len() > 0,
{
    vstd::utf8::char_is_scalar(s[0]);
}

/// Every failure the bridge records through its checks leaves a failure
/// code (never 0) and a message that is not empty, so a following
/// `nominal_last_error` reports more than zero bytes (any message held in
/// memory has fewer than 2^64 bytes): with a null buffer (`buf_present`
/// false) it is the size query that returns that count.
/// (A failure handed back by the SDK records the SDK's own text; that text
/// is not the bridge's to check.)
pub proof fn lemma_failure_leaves_message(
    code: i32,
    err_after: Seq<char>,
    f: (NominalErrorCode, Seq<char>),
    buf_present: bool,
    cap: u64,
    out: StrOut,
)
    requires
        failed_with(code, err_after, f),
        str_out_spec(err_after, buf_present, cap, out),
    ensures
        code != 0,
        err_after.len() > 0,
        utf8_bytes(err_after).len() > 0,
        utf8_bytes(err_after).len() <= u64::MAX ==> (out.needed matches Some(n) && n > 0),
{
    lemma_utf8_nonempty(err_after);
}

/// The messages of the failures that string and value getters, the
/// argument readers and the panic guard record are never empty: an invalid
/// handle, an index out of range, a buffer too small, a null or
/// non-UTF-8 argument, and a panic.
pub proof fn lemma_getter_failure_messages_nonempty(
    kind: Seq<char>,
    h: i32,
    index: i32,
    len: nat,
    needed: u64,
    cap: u64,
    arg: Option<Seq<u8>>,
    name: Seq<char>,
    payload: Option<&str>,
)
    ensures
        invalid_handle_msg(kind, h).len() > 0,
        index_msg(index, len).len() > 0,
        too_small_msg(needed, cap).len() > 0,
        required_msg(arg, name).len() > 0,
        panic_message_spec(payload).len() > 0,
{
    lemma_decimal_nonempty(len);
    lemma_decimal_nonempty(cap as nat);
    if h >= 0 {
        lemma_decimal_nonempty(h as nat);
    } else {
        lemma_decimal_nonempty((-(h as int)) as nat);
    }
    if index >= 0 {
        lemma_decimal_nonempty(index as nat);
    } else {
        lemma_decimal_nonempty((-(index as int)) as nat);
    }
    reveal_strlit("argument '");
    reveal_strlit("panic in FFI layer: ");
    reveal_strlit("panic in FFI layer (non-string payload)");
}

/// `nexts[0] <= ... <= nexts[j]`: a next handle that never moves back.
proof fn lemma_nexts_ordered(nexts: Seq<int>, i: int, j: int)
    requires
        0 <= i <= j < nexts.len(),
        forall|k: int| 0 <= k < nexts.len() - 1 ==> #[trigger] nexts[k] <= nexts[k + 1],
    ensures
        nexts[i] <= nexts[j],
    decreases j - i,
{
    if i < j {
        lemma_nexts_ordered(nexts, i, j - 1);
        assert(nexts[j - 1] <= nexts[j]);
    }
}

/// A registry never issues a handle twice, and never issues 0. Follow one
/// registry over a run of calls: `nexts[k]` is its next handle before call
/// `k` (1 for a new registry), `issued[k]` the handle call `k` issued, if
/// any. The contracts of every call that takes a registry (`Registry`'s
/// methods, `register`, `register_all`, the begin, edit, commit and free
/// functions) say that its next handle never moves back, and that a handle
/// is issued only as the current next handle, which then moves on by one
/// (a list call that registers `n` objects counts as `n` such steps: its
/// contract issues `start`, `start + 1`, ... and moves the next handle past
/// them). Then any two calls that issue handles issue different ones, the later
/// one greater; so after a failed begin, which leaves the next handle
/// where it was, a later begin still issues a fresh handle.
pub proof fn lemma_handles_never_reissued(nexts: Seq<int>, issued: Seq<Option<i32>>, a: int, b: int)
    requires
        nexts.len() == issued.len() + 1,
        nexts[0] >= 1,
        forall|k: int| 0 <= k < issued.len() ==> #[trigger] nexts[k] <= nexts[k + 1],
        forall|k: int|
            0 <= k < issued.len() && #[trigger] issued[k] is Some ==> issued[k]->0 == nexts[k] && nexts[k + 1]
                == nexts[k] + 1,
        0 <= a < b < issued.len(),
        issued[a] is Some,
        issued[b] is Some,
    ensures
        1 <= issued[a]->0 < issued[b]->0,
{
    lemma_nexts_ordered(nexts, 0, a);
    lemma_nexts_ordered(nexts, a + 1, b);
}

/// Setting a staged property twice keeps the last value: after `k` is set
/// to `v1` and then to `v2`, `k` reads `v2`, every other key reads as it
/// did before both, and the second set adds no entry. A property whose key
/// is empty is refused before anything is staged.
pub proof fn lemma_set_property_last_write_wins(
    m0: Seq<(Seq<char>, Seq<char>)>,
    m1: Seq<(Seq<char>, Seq<char>)>,
    m2: Seq<(Seq<char>, Seq<char>)>,
    k: Seq<char>,
    v1: Seq<char>,
    v2: Seq<char>,
    other: Seq<char>,
    value: Option<Seq<u8>>,
)
    requires
        keys_sorted(m0),
        inserted(m0, m1, k, v1),
        inserted(m1, m2, k, v2),
    ensures
        lookup(m2, k) == Some(v2),
        other != k ==> lookup(m2, other) == lookup(m0, other),
        m2.len() == m1.len(),
        property_step(Some(Seq::<u8>::empty()), value) matches Err(f) && f.0 == NominalErrorCode::InvalidArgument,
{
    lemma_inserted_lookup(m0, m1, k, v1, other);
    lemma_inserted_lookup(m1, m2, k, v2, other);
    assert(has_key(m1, k));
    let e = Seq::<u8>::empty();
    assert(vstd::utf8::valid_utf8(e));
    assert(vstd::utf8::decode_utf8(e).len() == 0);
}

/// A text argument as the bridge reads an optional string: present when the
/// pointer is not null, its bytes are UTF-8 and the text is not empty.
pub open spec fn given_text(arg: Option<Seq<u8>>) -> Option<Seq<char>> {
    match arg {
        Some(b) => if vstd::utf8::valid_utf8(b) && vstd::utf8::decode_utf8(b).len() > 0 {
            Some(vstd::utf8::decode_utf8(b))
        } else {
            None
        },
        None => None,
    }
}

/// Whether a text argument can be read: null, or UTF-8.
pub open spec fn readable(arg: Option<Seq<u8>>) -> bool {
    arg matches Some(b) ==> vstd::utf8::valid_utf8(b)
}

/// A relative timestamp keeps the offset it was given: when setting it
/// succeeds, the staged spec is relative, and its start time is the rounded
/// offset exactly when `has_offset`, and absent otherwise.
pub proof fn lemma_relative_timestamp_keeps_offset(
    old_m: Map<i32, TabularIngestParams>,
    new_m: Map<i32, TabularIngestParams>,
    staging: i32,
    column: Option<Seq<u8>>,
    time_unit: i32,
    offset: MillisArg,
    has_offset: bool,
    old_err: Seq<char>,
    new_err: Seq<char>,
)
    requires
        edit_post(
            old_m,
            new_m,
            staging,
            "tabular-ingest staging"@,
            |p: crate::ingest::TabularFields| relative_step(p, column, time_unit, offset, has_offset),
            0,
            old_err,
            new_err,
        ),
    ensures
        new_m.contains_key(staging),
        new_m[staging]@.timestamp matches Some(TimestampView::Relative { offset_ms, .. }) && offset_ms == (if has_offset {
            offset.rounded
        } else {
            None
        }),
        has_offset ==> offset.rounded is Some,
{
    assert(code_value(NominalErrorCode::Success) == 0);
}

/// A staged update is refused as empty exactly when none of its fields was
/// staged; staging any one field, the end time alone included, commits a
/// request that carries every staged field as staged.
pub proof fn lemma_update_commit_refuses_only_empty<C>(
    clients: Map<i32, C>,
    stagings: Map<i32, UpdateParams>,
    client: i32,
    rid: Option<Seq<u8>>,
    staging: i32,
    kind: Seq<char>,
    out_msg: Seq<char>,
)
    requires
        clients.contains_key(client),
        stagings.contains_key(staging),
        rid matches Some(b) && vstd::utf8::valid_utf8(b),
    ensures
        ({
            let p = stagings[staging]@;
            let step = update_commit_step(clients, stagings, client, rid, staging, kind, true, out_msg);
            &&& (p.name is None && p.description is None && p.labels is None && p.properties is None
                && p.start_ms is None && p.end_ms is None) <==> step == Err::<(Seq<char>, crate::staging::UpdateFields), (NominalErrorCode, Seq<char>)>(
                (NominalErrorCode::InvalidArgument, "staged update has no fields set"@),
            )
            &&& step matches Ok(v) ==> {
                &&& v.0 == vstd::utf8::decode_utf8(rid->0)
                &&& v.1.name == p.name
                &&& v.1.description == p.description
                &&& v.1.labels == p.labels
                &&& v.1.properties == p.properties
                &&& v.1.start_ms == p.start_ms
                &&& v.1.end_ms == p.end_ms
            }
        }),
{
}

/// A committed workbook is scoped by the kind of RID that was staged: runs
/// when only run RIDs were staged, assets when asset RIDs were, with the
/// staged RIDs of that kind; with none staged the commit is refused.
pub proof fn lemma_workbook_scope_follows_staging<C, T>(
    clients: Map<i32, C>,
    templates: Map<i32, T>,
    stagings: Map<i32, WorkbookCreateParams>,
    client: i32,
    template: i32,
    staging: i32,
)
    requires
        clients.contains_key(client),
        templates.contains_key(template),
        stagings.contains_key(staging),
    ensures
        ({
            let p = stagings[staging]@;
            let step = workbook_commit_step(clients, templates, stagings, client, template, staging, true);
            &&& p.scope_assets.len() == 0 && p.scope_runs.len() > 0 ==> (step matches Ok(v) && v.scope_type
                == NominalWorkbookScopeType::Runs && v.scope_rids == p.scope_runs)
            &&& p.scope_assets.len() > 0 ==> (step matches Ok(v) && v.scope_type == NominalWorkbookScopeType::Assets
                && v.scope_rids == p.scope_assets)
            &&& p.scope_assets.len() == 0 && p.scope_runs.len() == 0 ==> step is Err
        }),
{
}

/// A channel search is restricted to the data source and substring it was
/// given: every accepted search carries the `data_source_rid` and
/// `substring` arguments read as optional strings, and a search with a live
/// client, readable text arguments, both out-parameters and no data-type
/// filter is accepted.
pub proof fn lemma_channel_search_keeps_filters<C>(
    clients: Map<i32, C>,
    client: i32,
    data_source_rid: Option<Seq<u8>>,
    substring: Option<Seq<u8>>,
    data_type: i32,
    outs_present: bool,
)
    ensures
        channel_search_step(clients, client, data_source_rid, substring, data_type, outs_present) matches Ok(q) ==> {
            &&& q.data_source == given_text(data_source_rid)
            &&& q.substring == given_text(substring)
            &&& data_type == -1 ==> q.data_type is None
            &&& data_type != -1 ==> (q.data_type matches Some(t) && data_type_value(t) == data_type)
        },
        clients.contains_key(client) && readable(data_source_rid) && readable(substring) && outs_present
            && data_type == -1 ==> channel_search_step(clients, client, data_source_rid, substring, data_type, outs_present) is Ok,
{
}

/// A flat update carries the name and description it was given: every
/// accepted flat update's request holds the `name` and `description`
/// arguments read as optional strings, sets nothing else, and is never
/// empty.
pub proof fn lemma_flat_update_keeps_fields<C>(
    clients: Map<i32, C>,
    client: i32,
    rid: Option<Seq<u8>>,
    name: Option<Seq<u8>>,
    description: Option<Seq<u8>>,
    out_present: bool,
    out_msg: Seq<char>,
)
    ensures
        flat_update_step(clients, client, rid, name, description, out_present, out_msg) matches Ok(v) ==> {
            let req = flat_update_request(v).1;
            &&& req.name == given_text(name)
            &&& req.description == given_text(description)
            &&& req.name is Some || req.description is Some
            &&& req.labels is None && req.properties is None && req.start_ms is None && req.end_ms is None
        },
        clients.contains_key(client) && (rid matches Some(b) && vstd::utf8::valid_utf8(b)) && readable(name)
            && readable(description) && out_present && (given_text(name) is Some || given_text(description) is Some)
            ==> flat_update_step(clients, client, rid, name, description, out_present, out_msg) is Ok,
{
}

/// The shared search filters in `fs` are exactly those the arguments ask
/// for: the text, the label, and the property when both its key and value
/// are given.
pub open spec fn shared_filters_given(
    fs: Seq<FilterView>,
    text: Option<Seq<u8>>,
    label: Option<Seq<u8>>,
    key: Option<Seq<u8>>,
    value: Option<Seq<u8>>,
) -> bool {
    &&& forall|x: Seq<char>| #[trigger] fs.contains(FilterView::SearchText(x)) <==> given_text(text) == Some(x)
    &&& forall|x: Seq<char>| #[trigger] fs.contains(FilterView::Label(x)) <==> given_text(label) == Some(x)
    &&& forall|k: Seq<char>, v: Seq<char>| #[trigger] fs.contains(FilterView::Property(k, v)) <==> (given_text(key) == Some(k)
        && given_text(value) == Some(v))
}

/// A search of assets, datasets or videos filters by exactly what it was
/// given: every accepted search holds the text, label and property
/// filters its arguments ask for, and no other filter.
pub proof fn lemma_catalog_search_keeps_filters<C>(
    clients: Map<i32, C>,
    client: i32,
    text: Option<Seq<u8>>,
    label: Option<Seq<u8>>,
    key: Option<Seq<u8>>,
    value: Option<Seq<u8>>,
    outs_present: bool,
)
    ensures
        catalog_search_step(clients, client, text, label, key, value, outs_present) matches Ok(fs) ==> {
            &&& shared_filters_given(fs, text, label, key, value)
            &&& forall|i: int| 0 <= i < fs.len() ==> (#[trigger] fs[i] is SearchText || fs[i] is Label || fs[i] is Property)
        },
{
    if catalog_search_step(clients, client, text, label, key, value, outs_present) is Ok {
        let fs = catalog_search_step(clients, client, text, label, key, value, outs_present)->Ok_0;
        lemma_shared_filters(text, label, key, value, fs);
    }
}

/// The filters `base_filters` builds from readable arguments are those the
/// arguments ask for.
proof fn lemma_shared_filters(
    text: Option<Seq<u8>>,
    label: Option<Seq<u8>>,
    key: Option<Seq<u8>>,
    value: Option<Seq<u8>>,
    fs: Seq<FilterView>,
)
    requires
        crate::search::search_args_step(text, label, key, value) matches Ok(a) && base_filters(a.0, a.1, a.2, a.3)
            == Ok::<Seq<FilterView>, (NominalErrorCode, Seq<char>)>(fs),
    ensures
        shared_filters_given(fs, text, label, key, value),
        forall|i: int| 0 <= i < fs.len() ==> (#[trigger] fs[i] is SearchText || fs[i] is Label || fs[i] is Property),
{
    let a = crate::search::search_args_step(text, label, key, value)->Ok_0;
    assert(a.0 == given_text(text));
    assert(a.1 == given_text(label));
    assert(a.2 == given_text(key));
    assert(a.3 == given_text(value));
    assert forall|x: Seq<char>| #[trigger] fs.contains(FilterView::SearchText(x)) <==> a.0 == Some(x) by {
        if a.0 == Some(x) {
            assert(fs[0] == FilterView::SearchText(x));
        }
    }
    assert forall|x: Seq<char>| #[trigger] fs.contains(FilterView::Label(x)) <==> a.1 == Some(x) by {
        if a.1 == Some(x) {
            let i: int = if a.0 is Some { 1 } else { 0 };
            assert(fs[i] == FilterView::Label(x));
        }
    }
    assert forall|k: Seq<char>, v: Seq<char>| #[trigger] fs.contains(FilterView::Property(k, v)) <==> (a.2 == Some(k)
        && a.3 == Some(v)) by {
        if a.2 == Some(k) && a.3 == Some(v) {
            assert(fs[fs.len() - 1] == FilterView::Property(k, v));
        }
    }
}

/// A search of workbooks filters by exactly what it was given: the shared
/// filters, plus the asset RID and the run RID when each is given, and
/// nothing else.
pub proof fn lemma_workbook_search_keeps_filters<C>(
    clients: Map<i32, C>,
    client: i32,
    text: Option<Seq<u8>>,
    label: Option<Seq<u8>>,
    key: Option<Seq<u8>>,
    value: Option<Seq<u8>>,
    asset_rid: Option<Seq<u8>>,
    run_rid: Option<Seq<u8>>,
    outs_present: bool,
)
    ensures
        workbook_search_step(clients, client, text, label, key, value, asset_rid, run_rid, outs_present) matches Ok(fs) ==> {
            &&& shared_filters_given(fs, text, label, key, value)
            &&& forall|x: Seq<char>| #[trigger] fs.contains(FilterView::AssetRid(x)) <==> given_text(asset_rid) == Some(x)
            &&& forall|x: Seq<char>| #[trigger] fs.contains(FilterView::RunRid(x)) <==> given_text(run_rid) == Some(x)
            &&& forall|i: int|
                0 <= i < fs.len() ==> (#[trigger] fs[i] is SearchText || fs[i] is Label || fs[i] is Property || fs[i] is AssetRid
                    || fs[i] is RunRid)
        },
{
    let step = workbook_search_step(clients, client, text, label, key, value, asset_rid, run_rid, outs_present);
    if step is Ok {
        let fs = step->Ok_0;
        let a = crate::search::search_args_step(text, label, key, value)->Ok_0;
        let base = base_filters(a.0, a.1, a.2, a.3)->Ok_0;
        lemma_shared_filters(text, label, key, value, base);
        let ar = given_text(asset_rid);
        let rr = given_text(run_rid);
        let mid = match ar {
            Some(x) => base.push(FilterView::AssetRid(x)),
            None => base,
        };
        assert(fs == match rr {
            Some(x) => mid.push(FilterView::RunRid(x)),
            None => mid,
        });
        assert forall|f: FilterView| !(f is AssetRid) && !(f is RunRid) implies (#[trigger] fs.contains(f) <==> base.contains(f)) by {
            if fs.contains(f) {
                let i = choose|i: int| 0 <= i < fs.len() && fs[i] == f;
                assert(i < base.len());
                assert(base[i] == f);
            }
            if base.contains(f) {
                let i = choose|i: int| 0 <= i < base.len() && base[i] == f;
                assert(fs[i] == f);
            }
        }
        assert forall|x: Seq<char>| #[trigger] fs.contains(FilterView::AssetRid(x)) <==> ar == Some(x) by {
            if ar == Some(x) {
                assert(fs[base.len() as int] == FilterView::AssetRid(x));
            }
            if fs.contains(FilterView::AssetRid(x)) {
                let i = choose|i: int| 0 <= i < fs.len() && fs[i] == FilterView::AssetRid(x);
                if i < base.len() {
                    assert(base[i] == fs[i]);
                }
            }
        }
        assert forall|x: Seq<char>| #[trigger] fs.contains(FilterView::RunRid(x)) <==> rr == Some(x) by {
            if rr == Some(x) {
                assert(fs[fs.len() - 1] == FilterView::RunRid(x));
            }
            if fs.contains(FilterView::RunRid(x)) {
                let i = choose|i: int| 0 <= i < fs.len() && fs[i] == FilterView::RunRid(x);
                if i < mid.len() {
                    assert(mid[i] == fs[i]);
                    if i < base.len() {
                        assert(base[i] == mid[i]);
                    }
                }
            }
        }
        assert forall|x: Seq<char>| #[trigger] fs.contains(FilterView::SearchText(x)) <==> base.contains(FilterView::SearchText(x)) by {
            assert(!(FilterView::SearchText(x) is AssetRid) && !(FilterView::SearchText(x) is RunRid));
        }
        assert forall|x: Seq<char>| #[trigger] fs.contains(FilterView::Label(x)) <==> base.contains(FilterView::Label(x)) by {
            assert(!(FilterView::Label(x) is AssetRid) && !(FilterView::Label(x) is RunRid));
        }
        assert forall|k: Seq<char>, v: Seq<char>| #[trigger] fs.contains(FilterView::Property(k, v)) <==> base.contains(FilterView::Property(k, v)) by {
            assert(!(FilterView::Property(k, v) is AssetRid) && !(FilterView::Property(k, v) is RunRid));
        }
        assert forall|i: int| 0 <= i < fs.len() implies (#[trigger] fs[i] is SearchText || fs[i] is Label || fs[i] is Property
            || fs[i] is AssetRid || fs[i] is RunRid) by {
            if i < mid.len() {
                if i < base.len() {
                    assert(base[i] == fs[i]);
                }
            }
        }
    }
}

/// Appending filters of other kinds keeps the shared filters as they were.
proof fn lemma_shared_filters_extended(
    base: Seq<FilterView>,
    fs: Seq<FilterView>,
    text: Option<Seq<u8>>,
    label: Option<Seq<u8>>,
    key: Option<Seq<u8>>,
    value: Option<Seq<u8>>,
)
    requires
        shared_filters_given(base, text, label, key, value),
        base.len() <= fs.len(),
        forall|i: int| 0 <= i < base.len() ==> fs[i] == base[i],
        forall|i: int| base.len() <= i < fs.len() ==> !(#[trigger] fs[i] is SearchText) && !(fs[i] is Label) && !(fs[i] is Property),
    ensures
        shared_filters_given(fs, text, label, key, value),
{
    assert forall|f: FilterView| (f is SearchText || f is Label || f is Property) implies (#[trigger] fs.contains(f)
        <==> base.contains(f)) by {
        if fs.contains(f) {
            let i = choose|i: int| 0 <= i < fs.len() && fs[i] == f;
            assert(i < base.len());
            assert(base[i] == f);
        }
        if base.contains(f) {
            let i = choose|i: int| 0 <= i < base.len() && base[i] == f;
            assert(fs[i] == f);
        }
    }
    assert forall|x: Seq<char>| #[trigger] fs.contains(FilterView::SearchText(x)) <==> base.contains(FilterView::SearchText(x)) by {
        assert(FilterView::SearchText(x) is SearchText);
    }
    assert forall|x: Seq<char>| #[trigger] fs.contains(FilterView::Label(x)) <==> base.contains(FilterView::Label(x)) by {
        assert(FilterView::Label(x) is Label);
    }
    assert forall|k: Seq<char>, v: Seq<char>| #[trigger] fs.contains(FilterView::Property(k, v)) <==> base.contains(FilterView::Property(k, v)) by {
        assert(FilterView::Property(k, v) is Property);
    }
}

/// A search of runs filters by exactly what it was given: the shared
/// filters; the run number unless it is 0; runs starting at or after the
/// rounded `start_after` when `has_start_after`; runs ending at or before
/// the rounded `end_before` when `has_end_before`; and nothing else.
pub proof fn lemma_run_search_keeps_filters<C>(
    clients: Map<i32, C>,
    client: i32,
    text: Option<Seq<u8>>,
    label: Option<Seq<u8>>,
    key: Option<Seq<u8>>,
    value: Option<Seq<u8>>,
    run_number: u32,
    start_after: MillisArg,
    has_start_after: bool,
    end_before: MillisArg,
    has_end_before: bool,
    outs_present: bool,
)
    ensures
        run_search_step(clients, client, text, label, key, value, run_number, start_after, has_start_after, end_before, has_end_before, outs_present) matches Ok(fs) ==> {
            &&& shared_filters_given(fs, text, label, key, value)
            &&& forall|n: u32| #[trigger] fs.contains(FilterView::RunNumber(n)) <==> (run_number != 0 && n == run_number)
            &&& forall|t: i64| #[trigger] fs.contains(FilterView::StartTimeInclusive(t)) <==> (has_start_after && start_after.rounded == Some(t))
            &&& forall|t: i64| #[trigger] fs.contains(FilterView::EndTimeInclusive(t)) <==> (has_end_before && end_before.rounded == Some(t))
            &&& forall|i: int|
                0 <= i < fs.len() ==> !(#[trigger] fs[i] is AssetRid) && !(fs[i] is RunRid)
        },
{
    let step = run_search_step(clients, client, text, label, key, value, run_number, start_after, has_start_after, end_before, has_end_before, outs_present);
    if step is Ok {
        let fs = step->Ok_0;
        let a = crate::search::search_args_step(text, label, key, value)->Ok_0;
        let base = base_filters(a.0, a.1, a.2, a.3)->Ok_0;
        lemma_shared_filters(text, label, key, value, base);
        let n1 = if run_number != 0 { base.push(FilterView::RunNumber(run_number)) } else { base };
        let n2 = if has_start_after { n1.push(FilterView::StartTimeInclusive(start_after.rounded->0)) } else { n1 };
        assert(fs == if has_end_before { n2.push(FilterView::EndTimeInclusive(end_before.rounded->0)) } else { n2 });
        // Every position of `fs` holds the filter of one stage.
        assert forall|i: int| 0 <= i < fs.len() implies (i < base.len() ==> fs[i] == base[i]) && (base.len() <= i < n1.len() ==> fs[i]
            == FilterView::RunNumber(run_number)) && (n1.len() <= i < n2.len() ==> fs[i] == FilterView::StartTimeInclusive(
            start_after.rounded->0,
        )) && (n2.len() <= i ==> fs[i] == FilterView::EndTimeInclusive(end_before.rounded->0)) by {
            if i < n2.len() {
                assert(fs[i] == n2[i]);
                if i < n1.len() {
                    assert(n2[i] == n1[i]);
                }
            }
        }
        assert forall|i: int| 0 <= i < base.len() implies !(#[trigger] base[i] is AssetRid) && !(base[i] is RunRid)
            && !(base[i] is RunNumber) && !(base[i] is StartTimeInclusive) && !(base[i] is EndTimeInclusive) by {
            assert(base[i] is SearchText || base[i] is Label || base[i] is Property);
        }
        lemma_shared_filters_extended(base, fs, text, label, key, value);
        assert forall|n: u32| #[trigger] fs.contains(FilterView::RunNumber(n)) <==> (run_number != 0 && n == run_number) by {
            if run_number != 0 && n == run_number {
                assert(fs[base.len() as int] == FilterView::RunNumber(n));
            }
            if fs.contains(FilterView::RunNumber(n)) {
                let i = choose|i: int| 0 <= i < fs.len() && fs[i] == FilterView::RunNumber(n);
                if i < base.len() {
                    assert(!(base[i] is RunNumber));
                }
            }
        }
        assert forall|t: i64| #[trigger] fs.contains(FilterView::StartTimeInclusive(t)) <==> (has_start_after && start_after.rounded == Some(t)) by {
            if has_start_after && start_after.rounded == Some(t) {
                assert(fs[n1.len() as int] == FilterView::StartTimeInclusive(t));
            }
            if fs.contains(FilterView::StartTimeInclusive(t)) {
                let i = choose|i: int| 0 <= i < fs.len() && fs[i] == FilterView::StartTimeInclusive(t);
                if i < base.len() {
                    assert(!(base[i] is StartTimeInclusive));
                }
            }
        }
        assert forall|t: i64| #[trigger] fs.contains(FilterView::EndTimeInclusive(t)) <==> (has_end_before && end_before.rounded == Some(t)) by {
            if has_end_before && end_before.rounded == Some(t) {
                assert(fs[n2.len() as int] == FilterView::EndTimeInclusive(t));
            }
            if fs.contains(FilterView::EndTimeInclusive(t)) {
                let i = choose|i: int| 0 <= i < fs.len() && fs[i] == FilterView::EndTimeInclusive(t);
                if i < base.len() {
                    assert(!(base[i] is EndTimeInclusive));
                }
            }
        }
        assert forall|i: int| 0 <= i < fs.len() implies !(#[trigger] fs[i] is AssetRid) && !(fs[i] is RunRid) by {
            if i < base.len() {
                assert(!(base[i] is AssetRid));
            }
        }
    }
}

/// The text of a required argument that was read.
pub open spec fn text_of(arg: Option<Seq<u8>>) -> Seq<char> {
    vstd::utf8::decode_utf8(arg->0)
}

/// Whether a required text argument can be read: not null, and UTF-8.
pub open spec fn present_text(arg: Option<Seq<u8>>) -> bool {
    arg matches Some(b) && vstd::utf8::valid_utf8(b)
}

/// Setting a channel's metadata sends what it was given: the data source
/// and channel name as given, the data type whose number was passed, the
/// description and unit read as optional strings, and `clear_unit`; never a
/// unit together with `clear_unit`.
pub proof fn lemma_channel_metadata_keeps_arguments<C>(
    clients: Map<i32, C>,
    client: i32,
    data_source_rid: Option<Seq<u8>>,
    name: Option<Seq<u8>>,
    data_type: i32,
    description: Option<Seq<u8>>,
    unit: Option<Seq<u8>>,
    clear_unit: bool,
    out_present: bool,
)
    ensures
        set_metadata_step(clients, client, data_source_rid, name, data_type, description, unit, clear_unit, out_present) matches Ok(q) ==> {
            &&& present_text(data_source_rid) && q.data_source_rid == text_of(data_source_rid)
            &&& present_text(name) && q.name == text_of(name)
            &&& data_type_value(q.data_type) == data_type
            &&& q.description == given_text(description)
            &&& q.unit == given_text(unit)
            &&& q.clear_unit == clear_unit
            &&& !(q.unit is Some && q.clear_unit)
        },
        given_text(unit) is Some && clear_unit ==> !(set_metadata_step(clients, client, data_source_rid, name, data_type, description, unit, clear_unit, out_present) is Ok),
{
}

/// An upload sends the file and dataset it was given and the options that
/// were staged: the format asked for, the staged timestamp spec, prefix,
/// tag columns, file tags, excluded columns and archive flag; a CSV upload
/// never carries an archive flag. It is refused when no timestamp spec was
/// staged, and otherwise accepted for a live client and staging handle,
/// a readable path and dataset RID and the out-parameter.
pub proof fn lemma_ingest_sends_staged_options<C>(
    clients: Map<i32, C>,
    stagings: Map<i32, TabularIngestParams>,
    client: i32,
    staging: i32,
    file_path: Option<Seq<u8>>,
    dataset_rid: Option<Seq<u8>>,
    out_present: bool,
    format: TabularFormat,
)
    ensures
        ingest_step(clients, stagings, client, staging, file_path, dataset_rid, out_present, format) matches Ok(q) ==> {
            let p = stagings[staging]@;
            &&& stagings.contains_key(staging)
            &&& q.format == format
            &&& present_text(file_path) && q.file_path == text_of(file_path)
            &&& present_text(dataset_rid) && q.dataset_rid == text_of(dataset_rid)
            &&& p.timestamp == Some(q.timestamp)
            &&& q.channel_prefix == p.channel_prefix
            &&& q.tag_columns == p.tag_columns
            &&& q.file_tags == p.file_tags
            &&& q.exclude_columns == p.exclude_columns
            &&& q.is_archive == p.is_archive
            &&& format == TabularFormat::Csv ==> q.is_archive is None
        },
        (clients.contains_key(client) && stagings.contains_key(staging) && present_text(file_path) && present_text(dataset_rid)
            && out_present) ==> (ingest_step(clients, stagings, client, staging, file_path, dataset_rid, out_present, format) is Ok
            <==> (stagings[staging]@.timestamp is Some && (format == TabularFormat::Csv ==> stagings[staging]@.is_archive is None))),
{
}

/// A flat create sends the name and description it was given, and
/// nothing else.
pub proof fn lemma_flat_create_keeps_fields<C>(
    clients: Map<i32, C>,
    client: i32,
    name: Option<Seq<u8>>,
    description: Option<Seq<u8>>,
    out_present: bool,
    out_msg: Seq<char>,
)
    ensures
        flat_create_step(clients, client, name, description, out_present, out_msg) matches Ok(v) ==> {
            let req = flat_create_request(v);
            &&& present_text(name) && req.name == text_of(name)
            &&& req.description == given_text(description)
            &&& req.channel_delimiter is None && req.labels is None && req.properties is None
        },
        clients.contains_key(client) && present_text(name) && readable(description) && out_present
            ==> flat_create_step(clients, client, name, description, out_present, out_msg) is Ok,
{
}

/// A staged create sends what was staged: the name, description and
/// channel delimiter as staged, and the labels and properties when any
/// were staged (none are sent when none were).
pub proof fn lemma_create_commit_sends_staged<C>(
    clients: Map<i32, C>,
    stagings: Map<i32, CreateParams>,
    client: i32,
    staging: i32,
    kind: Seq<char>,
    out_msg: Seq<char>,
)
    requires
        clients.contains_key(client),
        stagings.contains_key(staging),
    ensures
        create_commit_step(clients, stagings, client, staging, kind, true, out_msg) matches Ok(q) && ({
            let p = stagings[staging]@;
            &&& q.name == p.name
            &&& q.description == p.description
            &&& q.channel_delimiter == p.channel_delimiter
            &&& (p.labels.len() == 0 <==> q.labels is None)
            &&& (p.labels.len() > 0 ==> q.labels == Some(p.labels))
            &&& (p.properties.len() == 0 <==> q.properties is None)
            &&& (p.properties.len() > 0 ==> q.properties == Some(p.properties))
        }),
{
}

/// A direct run create sends what it was given: the name, the description
/// read as an optional string, the rounded start time, and the rounded end
/// time exactly when `has_end`; nothing else.
pub proof fn lemma_run_create_keeps_arguments<C>(
    clients: Map<i32, C>,
    client: i32,
    name: Option<Seq<u8>>,
    description: Option<Seq<u8>>,
    start: MillisArg,
    end: MillisArg,
    has_end: bool,
    out_present: bool,
)
    ensures
        run_create_step(clients, client, name, description, start, end, has_end, out_present) matches Ok(q) ==> {
            &&& present_text(name) && q.name == text_of(name)
            &&& q.description == given_text(description)
            &&& start.rounded == Some(q.start_ms)
            &&& q.end_ms == (if has_end { end.rounded } else { None })
            &&& q.labels is None && q.properties is None && q.assets is None
        },
{
}

} // verus!
