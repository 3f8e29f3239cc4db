//! `nominal_run_*`: runs, their staged creates and updates, attached data
//! sources and attachments, and their fields.
//!
//! Timestamps cross the boundary as Unix milliseconds (UTC) in both
//! directions. Optional incoming timestamps pair the value with a "has_"
//! flag rather than a sentinel value.

use vstd::prelude::*;

use crate::actions::{
    check_client, client_step, flat_update_action, flat_update_step, get_action, get_step, list_action, list_outs_msg,
    list_step, rid_action, rid_step,
};
use crate::asset::{
    data_source_type_value, source_rids, source_type_at, source_type_spec, write_source_name_at, write_source_rid_at,
    DataSourceRef, NominalDataSourceType,
};
use crate::client::ClientEntry;
use crate::error::{LastError, NominalErrorCode};
use crate::fields::{
    count_getter, fail_null, indexed_str_getter, prop_keys, prop_values, str_failed, str_getter, value_getter,
    write_count, write_item_at, write_property_key_at, write_property_value_at,
};
use crate::handles::{
    begin_post, begin_staged, edit_post, failed_with, free_handle, invalid_handle_msg, lookup, lookup_step, outcome,
    take_staged, Registry,
};
use crate::search::{base_filters, base_search_filters, read_search_args, search_args_step, FilterView, SearchFilter, SearchQuery};
use crate::sorted::{keys_of, strings_view, SortedMap};
use crate::staging::{
    copy_opt, copy_str, flat_update_request, flat_update_request_of, label_step, nonempty_step, opt_pairs_view,
    opt_strs_view, opt_view, optional_step, property_step, props_set, read_nonempty_str, read_optional,
    read_property, read_required, request_labels, request_properties, required_step, nonempty_seq, update_add_label,
    update_begin, update_begin_step, update_commit, update_commit_step, update_description_step, update_end_step,
    update_label_step, update_name_step, update_property_ok, update_set_description, update_set_end, update_set_name,
    update_set_property, update_set_start, update_start_step, UpdateFields, UpdateParams, UpdateRequest,
};
use crate::strings::{arg_view, write_str_field, StrOut};
use crate::time::{millis_step, ms_to_datetime, MillisArg};

verus! {

/// A run as its getters report it.
#[derive(Debug)]
pub struct RunRecord {
    pub rid: String,
    pub name: String,
    pub description: String,
    /// Where the run is viewed in the Nominal web app.
    pub url: String,
    pub run_number: u32,
    /// Unix milliseconds, UTC.
    pub start_ms: i64,
    /// Absent while the run is still going.
    pub end_ms: Option<i64>,
    pub created_at_ms: i64,
    pub properties: SortedMap<String>,
    pub labels: Vec<String>,
    /// RIDs of the linked assets.
    pub assets: Vec<String>,
    /// Keyed by ref name.
    pub data_sources: SortedMap<DataSourceRef>,
}

/// A run-create request.
#[derive(Debug)]
pub struct RunCreateRequest {
    pub name: String,
    pub start_ms: i64,
    pub description: Option<String>,
    pub end_ms: Option<i64>,
    pub labels: Option<Vec<String>>,
    pub properties: Option<Vec<(String, String)>>,
    pub assets: Option<Vec<String>>,
}

/// A run-create request, or the staged fields of one, as the spec sees it.
pub struct RunCreateFields {
    pub name: Seq<char>,
    pub start_ms: i64,
    pub description: Option<Seq<char>>,
    pub end_ms: Option<i64>,
    pub labels: Seq<Seq<char>>,
    pub properties: Seq<(Seq<char>, Seq<char>)>,
    pub assets: Seq<Seq<char>>,
}

/// A run-create request as the spec sees it: empty collections are absent.
pub struct RunCreateRequestFields {
    pub name: Seq<char>,
    pub start_ms: i64,
    pub description: Option<Seq<char>>,
    pub end_ms: Option<i64>,
    pub labels: Option<Seq<Seq<char>>>,
    pub properties: Option<Seq<(Seq<char>, Seq<char>)>>,
    pub assets: Option<Seq<Seq<char>>>,
}

impl View for RunCreateRequest {
    type V = RunCreateRequestFields;

    open spec fn view(&self) -> RunCreateRequestFields {
        RunCreateRequestFields {
            name: self.name@,
            start_ms: self.start_ms,
            description: opt_view(self.description),
            end_ms: self.end_ms,
            labels: opt_strs_view(self.labels),
            properties: opt_pairs_view(self.properties),
            assets: opt_strs_view(self.assets),
        }
    }
}

/// The request a staged run create turns into.
pub open spec fn run_request_of(p: RunCreateFields) -> RunCreateRequestFields {
    RunCreateRequestFields {
        name: p.name,
        start_ms: p.start_ms,
        description: p.description,
        end_ms: p.end_ms,
        labels: nonempty_seq(p.labels),
        properties: nonempty_seq(p.properties),
        assets: nonempty_seq(p.assets),
    }
}

// ---------------------------------------------------------------------------
// Actions
// ---------------------------------------------------------------------------

/// Creating a run directly: the client, the (required) name, the
/// (optional) description, the start time, the out-parameter, then the end
/// time when one is given.
pub open spec fn run_create_step<C>(
    clients: Map<i32, C>,
    client: i32,
    name: Option<Seq<u8>>,
    description: Option<Seq<u8>>,
    start: MillisArg,
    end: MillisArg,
    has_end: bool,
    out_present: bool,
) -> Result<RunCreateRequestFields, (NominalErrorCode, Seq<char>)> {
    match client_step(clients, client) {
        Err(f) => Err(f),
        Ok(_) => match required_step(name, "name"@) {
            Err(f) => Err(f),
            Ok(n) => match optional_step(description, "description"@) {
                Err(f) => Err(f),
                Ok(d) => match millis_step(start.rounded, start.shown@, "start_ms"@) {
                    Err(f) => Err(f),
                    Ok(s) => if !out_present {
                        Err((NominalErrorCode::NullArgument, "out_run must not be null"@))
                    } else if !has_end {
                        Ok(
                            RunCreateRequestFields {
                                name: n,
                                start_ms: s,
                                description: d,
                                end_ms: None,
                                labels: None,
                                properties: None,
                                assets: None,
                            },
                        )
                    } else {
                        match millis_step(end.rounded, end.shown@, "end_ms"@) {
                            Err(f) => Err(f),
                            Ok(e) => Ok(
                                RunCreateRequestFields {
                                    name: n,
                                    start_ms: s,
                                    description: d,
                                    end_ms: Some(e),
                                    labels: None,
                                    properties: None,
                                    assets: None,
                                },
                            ),
                        }
                    },
                },
            },
        },
    }
}

/// Checks creating a run with a name, start time, optional description and
/// optional end time (`has_end` false: still running), and yields the
/// request. Labels, properties and asset links go through the staged create.
pub fn nominal_run_create<C>(
    clients: &Registry<ClientEntry<C>>,
    err: &mut LastError,
    client: i32,
    name: Option<&[u8]>,
    description: Option<&[u8]>,
    start: &MillisArg,
    end: &MillisArg,
    has_end: bool,
    out_present: bool,
) -> (r: Result<RunCreateRequest, i32>)
    ensures
        outcome(
            run_create_step(clients@, client, arg_view(name), arg_view(description), *start, *end, has_end, out_present),
            r,
            old(err)@,
            final(err)@,
        ),
{
    match check_client(clients, err, client) {
        Ok(_) => {},
        Err(c) => {
            return Err(c);
        },
    }
    let name = match read_required(err, name, "name") {
        Ok(n) => n,
        Err(c) => {
            return Err(c);
        },
    };
    let description = match read_optional(err, description, "description") {
        Ok(d) => d,
        Err(c) => {
            return Err(c);
        },
    };
    let start_ms = match ms_to_datetime(err, start, "start_ms") {
        Ok(s) => s,
        Err(c) => {
            return Err(c);
        },
    };
    if !out_present {
        proof { reveal_strlit("out_run must not be null"); }
        return Err(fail_null(err, "out_run must not be null"));
    }
    let end_ms = if has_end {
        match ms_to_datetime(err, end, "end_ms") {
            Ok(e) => Some(e),
            Err(c) => {
                return Err(c);
            },
        }
    } else {
        None
    };
    Ok(RunCreateRequest { name, start_ms, description, end_ms, labels: None, properties: None, assets: None })
}

/// Checks fetching the run with the given RID and yields the RID.
pub fn nominal_run_get<C>(clients: &Registry<ClientEntry<C>>, err: &mut LastError, client: i32, rid: Option<&[u8]>, out_present: bool) -> (r: Result<String, i32>)
    ensures
        outcome(get_step(clients@, client, arg_view(rid), out_present, "out_run must not be null"@), r, old(err)@, final(err)@),
{
    proof { reveal_strlit("out_run must not be null"); }
    get_action(clients, err, client, rid, out_present, "out_run must not be null")
}

/// Checks listing all runs.
pub fn nominal_run_list<C>(clients: &Registry<ClientEntry<C>>, err: &mut LastError, client: i32, outs_present: bool) -> (r: Result<(), i32>)
    ensures
        outcome(list_step(clients@, client, outs_present), r, old(err)@, final(err)@),
{
    list_action(clients, err, client, outs_present)
}

/// The run filters after the shared ones: run number (0 = no filter), then
/// start-after and end-before times when flagged.
pub open spec fn run_filters(
    base: Seq<FilterView>,
    run_number: u32,
    start_after: MillisArg,
    has_start_after: bool,
    end_before: MillisArg,
    has_end_before: bool,
) -> Result<Seq<FilterView>, (NominalErrorCode, Seq<char>)> {
    let with_number = if run_number != 0 {
        base.push(FilterView::RunNumber(run_number))
    } else {
        base
    };
    let with_start = if has_start_after {
        match millis_step(start_after.rounded, start_after.shown@, "start_after_ms"@) {
            Ok(t) => Ok(with_number.push(FilterView::StartTimeInclusive(t))),
            Err(f) => Err(f),
        }
    } else {
        Ok(with_number)
    };
    match with_start {
        Err(f) => Err(f),
        Ok(fs) => if has_end_before {
            match millis_step(end_before.rounded, end_before.shown@, "end_before_ms"@) {
                Ok(t) => Ok(fs.push(FilterView::EndTimeInclusive(t))),
                Err(f) => Err(f),
            }
        } else {
            Ok(fs)
        },
    }
}

/// A search of runs: the client, the four shared filter arguments, both
/// out-parameters, the shared filters, then the run filters.
pub open spec fn run_search_step<C>(
    clients: Map<i32, C>,
    client: i32,
    text: Option<Seq<u8>>,
    label: Option<Seq<u8>>,
    key: Option<Seq<u8>>,
    value: Option<Seq<u8>>,
    run_number: u32,
    start_after: MillisArg,
    has_start_after: bool,
    end_before: MillisArg,
    has_end_before: bool,
    outs_present: bool,
) -> Result<Seq<FilterView>, (NominalErrorCode, Seq<char>)> {
    match client_step(clients, client) {
        Err(f) => Err(f),
        Ok(_) => match search_args_step(text, label, key, value) {
            Err(f) => Err(f),
            Ok(a) => if !outs_present {
                Err((NominalErrorCode::NullArgument, list_outs_msg()))
            } else {
                match base_filters(a.0, a.1, a.2, a.3) {
                    Err(f) => Err(f),
                    Ok(base) => run_filters(base, run_number, start_after, has_start_after, end_before, has_end_before),
                }
            },
        },
    }
}

/// Checks a search of runs and yields its filters: text, label, property
/// key plus value (both or neither), run number (0 = none), runs starting
/// at or after `start_after` (when `has_start_after`), and runs ending at
/// or before `end_before` (when `has_end_before`), combined with AND.
pub fn nominal_run_search<C>(
    clients: &Registry<ClientEntry<C>>,
    err: &mut LastError,
    client: i32,
    search_text: Option<&[u8]>,
    label: Option<&[u8]>,
    property_key: Option<&[u8]>,
    property_value: Option<&[u8]>,
    run_number: u32,
    start_after: &MillisArg,
    has_start_after: bool,
    end_before: &MillisArg,
    has_end_before: bool,
    outs_present: bool,
) -> (r: Result<SearchQuery, i32>)
    ensures
        outcome(
            run_search_step(
                clients@,
                client,
                arg_view(search_text),
                arg_view(label),
                arg_view(property_key),
                arg_view(property_value),
                run_number,
                *start_after,
                has_start_after,
                *end_before,
                has_end_before,
                outs_present,
            ),
            r,
            old(err)@,
            final(err)@,
        ),
{
    match check_client(clients, err, client) {
        Ok(_) => {},
        Err(c) => {
            return Err(c);
        },
    }
    let args = match read_search_args(err, search_text, label, property_key, property_value) {
        Ok(a) => a,
        Err(c) => {
            return Err(c);
        },
    };
    if !outs_present {
        proof { reveal_strlit("out_list and out_count must not be null"); }
        return Err(fail_null(err, "out_list and out_count must not be null"));
    }
    let mut filters = match base_search_filters(err, args) {
        Ok(f) => f,
        Err(c) => {
            return Err(c);
        },
    };
    let ghost base = filters@.map_values(|f: SearchFilter| f@);
    if run_number != 0 {
        filters.push(SearchFilter::RunNumber(run_number));
    }
    let ghost with_number = filters@.map_values(|f: SearchFilter| f@);
    proof {
        assert(with_number =~= if run_number != 0 {
            base.push(FilterView::RunNumber(run_number))
        } else {
            base
        });
    }
    if has_start_after {
        match ms_to_datetime(err, start_after, "start_after_ms") {
            Ok(t) => {
                filters.push(SearchFilter::StartTimeInclusive(t));
                proof {
                    assert(filters@.map_values(|f: SearchFilter| f@) =~= with_number.push(FilterView::StartTimeInclusive(t)));
                }
            },
            Err(c) => {
                return Err(c);
            },
        }
    }
    let ghost with_start = filters@.map_values(|f: SearchFilter| f@);
    if has_end_before {
        match ms_to_datetime(err, end_before, "end_before_ms") {
            Ok(t) => {
                filters.push(SearchFilter::EndTimeInclusive(t));
                proof {
                    assert(filters@.map_values(|f: SearchFilter| f@) =~= with_start.push(FilterView::EndTimeInclusive(t)));
                }
            },
            Err(c) => {
                return Err(c);
            },
        }
    }
    Ok(SearchQuery { filters })
}

/// Checks an update of a run's name and/or description (null or empty
/// leaves a field unchanged) and yields the RID and request. Labels,
/// properties and times go through the staged update.
pub fn nominal_run_update<C>(
    clients: &Registry<ClientEntry<C>>,
    err: &mut LastError,
    client: i32,
    rid: Option<&[u8]>,
    name: Option<&[u8]>,
    description: Option<&[u8]>,
    out_present: bool,
) -> (r: Result<(String, UpdateRequest), i32>)
    ensures
        match flat_update_step(clients@, client, arg_view(rid), arg_view(name), arg_view(description), out_present, "out_run must not be null"@) {
            Ok(v) => (r matches Ok(x) && (x.0@, x.1@) == flat_update_request(v)) && final(err)@ == old(err)@,
            Err(f) => r matches Err(c) && failed_with(c, final(err)@, f),
        },
{
    proof { reveal_strlit("out_run must not be null"); }
    match flat_update_action(clients, err, client, rid, name, description, out_present, "out_run must not be null") {
        Ok(v) => Ok(flat_update_request_of(v)),
        Err(c) => Err(c),
    }
}

/// Attaching one data source to a run: the client, the run RID, the ref
/// name, the source RID (argument `source_arg`), then the out-parameter.
pub open spec fn attach_step<C>(
    clients: Map<i32, C>,
    client: i32,
    rid: Option<Seq<u8>>,
    ref_name: Option<Seq<u8>>,
    source_rid: Option<Seq<u8>>,
    source_arg: Seq<char>,
    out_present: bool,
) -> Result<(Seq<char>, Seq<char>, Seq<char>), (NominalErrorCode, Seq<char>)> {
    match client_step(clients, client) {
        Err(f) => Err(f),
        Ok(_) => match required_step(rid, "rid"@) {
            Err(f) => Err(f),
            Ok(r) => match required_step(ref_name, "ref_name"@) {
                Err(f) => Err(f),
                Ok(n) => match required_step(source_rid, source_arg) {
                    Err(f) => Err(f),
                    Ok(s) => if out_present {
                        Ok((r, n, s))
                    } else {
                        Err((NominalErrorCode::NullArgument, "out_run must not be null"@))
                    },
                },
            },
        },
    }
}

/// Checks attaching one data source and yields the run RID, ref name and
/// source RID.
pub fn attach_action<C>(
    clients: &Registry<ClientEntry<C>>,
    err: &mut LastError,
    client: i32,
    rid: Option<&[u8]>,
    ref_name: Option<&[u8]>,
    source_rid: Option<&[u8]>,
    source_arg: &str,
    out_present: bool,
) -> (r: Result<(String, String, String), i32>)
    ensures
        match attach_step(clients@, client, arg_view(rid), arg_view(ref_name), arg_view(source_rid), source_arg@, out_present) {
            Ok(v) => (r matches Ok(x) && x.0@ == v.0 && x.1@ == v.1 && x.2@ == v.2) && final(err)@ == old(err)@,
            Err(f) => r matches Err(c) && failed_with(c, final(err)@, f),
        },
{
    match check_client(clients, err, client) {
        Ok(_) => {},
        Err(c) => {
            return Err(c);
        },
    }
    let rid = match read_required(err, rid, "rid") {
        Ok(x) => x,
        Err(c) => {
            return Err(c);
        },
    };
    let ref_name = match read_required(err, ref_name, "ref_name") {
        Ok(x) => x,
        Err(c) => {
            return Err(c);
        },
    };
    let source = match read_required(err, source_rid, source_arg) {
        Ok(x) => x,
        Err(c) => {
            return Err(c);
        },
    };
    if !out_present {
        proof { reveal_strlit("out_run must not be null"); }
        return Err(fail_null(err, "out_run must not be null"));
    }
    Ok((rid, ref_name, source))
}

/// Checks attaching the dataset `dataset_rid` to the run `rid` under
/// `ref_name`. The server rejects a ref name the run already has.
pub fn nominal_run_add_dataset<C>(
    clients: &Registry<ClientEntry<C>>,
    err: &mut LastError,
    client: i32,
    rid: Option<&[u8]>,
    ref_name: Option<&[u8]>,
    dataset_rid: Option<&[u8]>,
    out_present: bool,
) -> (r: Result<(String, String, String), i32>)
    ensures
        match attach_step(clients@, client, arg_view(rid), arg_view(ref_name), arg_view(dataset_rid), "dataset_rid"@, out_present) {
            Ok(v) => (r matches Ok(x) && x.0@ == v.0 && x.1@ == v.1 && x.2@ == v.2) && final(err)@ == old(err)@,
            Err(f) => r matches Err(c) && failed_with(c, final(err)@, f),
        },
{
    attach_action(clients, err, client, rid, ref_name, dataset_rid, "dataset_rid", out_present)
}

/// Checks attaching the video `video_rid` to the run `rid` under
/// `ref_name`.
pub fn nominal_run_add_video<C>(
    clients: &Registry<ClientEntry<C>>,
    err: &mut LastError,
    client: i32,
    rid: Option<&[u8]>,
    ref_name: Option<&[u8]>,
    video_rid: Option<&[u8]>,
    out_present: bool,
) -> (r: Result<(String, String, String), i32>)
    ensures
        match attach_step(clients@, client, arg_view(rid), arg_view(ref_name), arg_view(video_rid), "video_rid"@, out_present) {
            Ok(v) => (r matches Ok(x) && x.0@ == v.0 && x.1@ == v.1 && x.2@ == v.2) && final(err)@ == old(err)@,
            Err(f) => r matches Err(c) && failed_with(c, final(err)@, f),
        },
{
    attach_action(clients, err, client, rid, ref_name, video_rid, "video_rid", out_present)
}

/// Checks attaching the connection `connection_rid` to the run `rid` under
/// `ref_name`.
pub fn nominal_run_add_connection<C>(
    clients: &Registry<ClientEntry<C>>,
    err: &mut LastError,
    client: i32,
    rid: Option<&[u8]>,
    ref_name: Option<&[u8]>,
    connection_rid: Option<&[u8]>,
    out_present: bool,
) -> (r: Result<(String, String, String), i32>)
    ensures
        match attach_step(clients@, client, arg_view(rid), arg_view(ref_name), arg_view(connection_rid), "connection_rid"@, out_present) {
            Ok(v) => (r matches Ok(x) && x.0@ == v.0 && x.1@ == v.1 && x.2@ == v.2) && final(err)@ == old(err)@,
            Err(f) => r matches Err(c) && failed_with(c, final(err)@, f),
        },
{
    attach_action(clients, err, client, rid, ref_name, connection_rid, "connection_rid", out_present)
}

/// Adding or removing an attachment: the client, the run RID, then the
/// attachment RID.
pub open spec fn attachment_step<C>(
    clients: Map<i32, C>,
    client: i32,
    rid: Option<Seq<u8>>,
    attachment_rid: Option<Seq<u8>>,
) -> Result<(Seq<char>, Seq<char>), (NominalErrorCode, Seq<char>)> {
    match client_step(clients, client) {
        Err(f) => Err(f),
        Ok(_) => match required_step(rid, "rid"@) {
            Err(f) => Err(f),
            Ok(r) => match required_step(attachment_rid, "attachment_rid"@) {
                Err(f) => Err(f),
                Ok(a) => Ok((r, a)),
            },
        },
    }
}

/// Checks an attachment call and yields the run RID and attachment RID.
pub fn attachment_action<C>(
    clients: &Registry<ClientEntry<C>>,
    err: &mut LastError,
    client: i32,
    rid: Option<&[u8]>,
    attachment_rid: Option<&[u8]>,
) -> (r: Result<(String, String), i32>)
    ensures
        match attachment_step(clients@, client, arg_view(rid), arg_view(attachment_rid)) {
            Ok(v) => (r matches Ok(x) && x.0@ == v.0 && x.1@ == v.1) && final(err)@ == old(err)@,
            Err(f) => r matches Err(c) && failed_with(c, final(err)@, f),
        },
{
    match check_client(clients, err, client) {
        Ok(_) => {},
        Err(c) => {
            return Err(c);
        },
    }
    let rid = match read_required(err, rid, "rid") {
        Ok(x) => x,
        Err(c) => {
            return Err(c);
        },
    };
    let attachment = match read_required(err, attachment_rid, "attachment_rid") {
        Ok(x) => x,
        Err(c) => {
            return Err(c);
        },
    };
    Ok((rid, attachment))
}

/// Checks adding an already-uploaded attachment to the run `rid`.
pub fn nominal_run_add_attachment<C>(
    clients: &Registry<ClientEntry<C>>,
    err: &mut LastError,
    client: i32,
    rid: Option<&[u8]>,
    attachment_rid: Option<&[u8]>,
) -> (r: Result<(String, String), i32>)
    ensures
        match attachment_step(clients@, client, arg_view(rid), arg_view(attachment_rid)) {
            Ok(v) => (r matches Ok(x) && x.0@ == v.0 && x.1@ == v.1) && final(err)@ == old(err)@,
            Err(f) => r matches Err(c) && failed_with(c, final(err)@, f),
        },
{
    attachment_action(clients, err, client, rid, attachment_rid)
}

/// Checks removing an attachment from the run `rid` (the attachment itself
/// is not deleted).
pub fn nominal_run_remove_attachment<C>(
    clients: &Registry<ClientEntry<C>>,
    err: &mut LastError,
    client: i32,
    rid: Option<&[u8]>,
    attachment_rid: Option<&[u8]>,
) -> (r: Result<(String, String), i32>)
    ensures
        match attachment_step(clients@, client, arg_view(rid), arg_view(attachment_rid)) {
            Ok(v) => (r matches Ok(x) && x.0@ == v.0 && x.1@ == v.1) && final(err)@ == old(err)@,
            Err(f) => r matches Err(c) && failed_with(c, final(err)@, f),
        },
{
    attachment_action(clients, err, client, rid, attachment_rid)
}

/// Checks archiving a run (hidden from the UI, not deleted).
pub fn nominal_run_archive<C>(clients: &Registry<ClientEntry<C>>, err: &mut LastError, client: i32, rid: Option<&[u8]>) -> (r: Result<String, i32>)
    ensures
        outcome(rid_step(clients@, client, arg_view(rid)), r, old(err)@, final(err)@),
{
    rid_action(clients, err, client, rid)
}

/// Checks unarchiving a run.
pub fn nominal_run_unarchive<C>(clients: &Registry<ClientEntry<C>>, err: &mut LastError, client: i32, rid: Option<&[u8]>) -> (r: Result<String, i32>)
    ensures
        outcome(rid_step(clients@, client, arg_view(rid)), r, old(err)@, final(err)@),
{
    rid_action(clients, err, client, rid)
}

/// Frees a run handle. Freeing twice returns an error.
pub fn nominal_run_free(runs: &mut Registry<RunRecord>, err: &mut LastError, run: i32) -> (r: i32)
    ensures
        final(runs)@ == old(runs)@.remove(run),
        final(runs).next_handle() == old(runs).next_handle(),
        old(runs)@.contains_key(run) ==> r == 0 && final(err)@ == old(err)@,
        !old(runs)@.contains_key(run) ==> failed_with(
            r,
            final(err)@,
            (NominalErrorCode::InvalidHandle, invalid_handle_msg("run"@, run)),
        ),
{
    free_handle(runs, err, run, "run")
}

// ---------------------------------------------------------------------------
// Staged create
// ---------------------------------------------------------------------------

/// Accumulated fields for a run create.
#[derive(Debug)]
pub struct RunCreateParams {
    name: String,
    start_ms: i64,
    description: Option<String>,
    end_ms: Option<i64>,
    labels: Vec<String>,
    properties: SortedMap<String>,
    assets: Vec<String>,
}

impl View for RunCreateParams {
    type V = RunCreateFields;

    closed spec fn view(&self) -> RunCreateFields {
        RunCreateFields {
            name: self.name@,
            start_ms: self.start_ms,
            description: opt_view(self.description),
            end_ms: self.end_ms,
            labels: strings_view(self.labels@),
            properties: self.properties@,
            assets: strings_view(self.assets@),
        }
    }
}

/// Starting a staged run create: the (required, not empty) name, the start
/// time, then the out-parameter.
pub open spec fn run_begin_step(name: Option<Seq<u8>>, start: MillisArg, out_present: bool) -> Result<RunCreateFields, (NominalErrorCode, Seq<char>)> {
    match nonempty_step(name, "name"@) {
        Err(f) => Err(f),
        Ok(n) => match millis_step(start.rounded, start.shown@, "start_ms"@) {
            Err(f) => Err(f),
            Ok(s) => if out_present {
                Ok(
                    RunCreateFields {
                        name: n,
                        start_ms: s,
                        description: None,
                        end_ms: None,
                        labels: Seq::empty(),
                        properties: Seq::empty(),
                        assets: Seq::empty(),
                    },
                )
            } else {
                Err((NominalErrorCode::NullArgument, "out_staging must not be null"@))
            },
        },
    }
}

/// Starts staging a run create with the required name and start time.
pub fn nominal_run_create_begin(
    stagings: &mut Registry<RunCreateParams>,
    err: &mut LastError,
    name: Option<&[u8]>,
    start: &MillisArg,
    out_present: bool,
) -> (r: Result<i32, i32>)
    ensures
        begin_post(old(stagings)@, final(stagings)@, old(stagings).next_handle(), final(stagings).next_handle(), run_begin_step(arg_view(name), *start, out_present), r, old(err)@, final(err)@),
{
    let name = match read_nonempty_str(err, name, "name") {
        Ok(n) => n,
        Err(c) => {
            return Err(c);
        },
    };
    let start_ms = match ms_to_datetime(err, start, "start_ms") {
        Ok(s) => s,
        Err(c) => {
            return Err(c);
        },
    };
    if !out_present {
        proof { reveal_strlit("out_staging must not be null"); }
        return Err(fail_null(err, "out_staging must not be null"));
    }
    let params = RunCreateParams {
        name,
        start_ms,
        description: None,
        end_ms: None,
        labels: Vec::new(),
        properties: SortedMap::new(),
        assets: Vec::new(),
    };
    proof {
        assert(params@.labels =~= Seq::<Seq<char>>::empty());
        assert(params@.assets =~= Seq::<Seq<char>>::empty());
    }
    begin_staged(stagings, err, params)
}

/// Setting the description of a staged run create: null or empty clears it.
pub open spec fn run_description_step(p: RunCreateFields, arg: Option<Seq<u8>>) -> Result<RunCreateFields, (NominalErrorCode, Seq<char>)> {
    match optional_step(arg, "description"@) {
        Ok(d) => Ok(RunCreateFields { description: d, ..p }),
        Err(f) => Err(f),
    }
}

/// Sets (or, with null or empty, clears) the description of a staged run
/// create.
pub fn nominal_run_create_set_description(stagings: &mut Registry<RunCreateParams>, err: &mut LastError, staging: i32, description: Option<&[u8]>) -> (r: i32)
    ensures
        final(stagings).next_handle() == old(stagings).next_handle(),
        edit_post(old(stagings)@, final(stagings)@, staging, "run-create staging"@, |p: RunCreateFields| run_description_step(p, arg_view(description)), r, old(err)@, final(err)@),
{
    let mut p = match take_staged(stagings, err, staging, "run-create staging") {
        Ok(p) => p,
        Err(c) => {
            return c;
        },
    };
    match read_optional(err, description, "description") {
        Ok(d) => {
            p.description = d;
            stagings.put_back(staging, p);
            0
        },
        Err(c) => {
            stagings.put_back(staging, p);
            proof {
                assert(stagings@ =~= old(stagings)@);
            }
            c
        },
    }
}

/// Setting the end time of a staged run create.
pub open spec fn run_end_step(p: RunCreateFields, end: MillisArg) -> Result<RunCreateFields, (NominalErrorCode, Seq<char>)> {
    match millis_step(end.rounded, end.shown@, "end_ms"@) {
        Ok(e) => Ok(RunCreateFields { end_ms: Some(e), ..p }),
        Err(f) => Err(f),
    }
}

/// Sets the end time of a staged run create.
pub fn nominal_run_create_set_end(stagings: &mut Registry<RunCreateParams>, err: &mut LastError, staging: i32, end: &MillisArg) -> (r: i32)
    ensures
        final(stagings).next_handle() == old(stagings).next_handle(),
        edit_post(old(stagings)@, final(stagings)@, staging, "run-create staging"@, |p: RunCreateFields| run_end_step(p, *end), r, old(err)@, final(err)@),
{
    let mut p = match take_staged(stagings, err, staging, "run-create staging") {
        Ok(p) => p,
        Err(c) => {
            return c;
        },
    };
    match ms_to_datetime(err, end, "end_ms") {
        Ok(e) => {
            p.end_ms = Some(e);
            stagings.put_back(staging, p);
            0
        },
        Err(c) => {
            stagings.put_back(staging, p);
            proof {
                assert(stagings@ =~= old(stagings)@);
            }
            c
        },
    }
}

/// Adding a label to a staged run create.
pub open spec fn run_label_step(p: RunCreateFields, arg: Option<Seq<u8>>) -> Result<RunCreateFields, (NominalErrorCode, Seq<char>)> {
    match label_step(p.labels, arg) {
        Ok(ls) => Ok(RunCreateFields { labels: ls, ..p }),
        Err(f) => Err(f),
    }
}

/// Adds one (non-empty) label to a staged run create.
pub fn nominal_run_create_add_label(stagings: &mut Registry<RunCreateParams>, err: &mut LastError, staging: i32, label: Option<&[u8]>) -> (r: i32)
    ensures
        final(stagings).next_handle() == old(stagings).next_handle(),
        edit_post(old(stagings)@, final(stagings)@, staging, "run-create staging"@, |p: RunCreateFields| run_label_step(p, arg_view(label)), r, old(err)@, final(err)@),
{
    let mut p = match take_staged(stagings, err, staging, "run-create staging") {
        Ok(p) => p,
        Err(c) => {
            return c;
        },
    };
    match read_nonempty_str(err, label, "label") {
        Ok(l) => {
            p.labels.push(l);
            proof {
                assert(p@.labels =~= old(stagings)@[staging]@.labels.push(l@));
            }
            stagings.put_back(staging, p);
            0
        },
        Err(c) => {
            stagings.put_back(staging, p);
            proof {
                assert(stagings@ =~= old(stagings)@);
            }
            c
        },
    }
}

/// Setting a property on a staged run create.
pub open spec fn run_property_ok(p: RunCreateFields, q: RunCreateFields, kv: (Seq<char>, Seq<char>)) -> bool {
    &&& q.name == p.name
    &&& q.start_ms == p.start_ms
    &&& q.description == p.description
    &&& q.end_ms == p.end_ms
    &&& q.labels == p.labels
    &&& q.assets == p.assets
    &&& props_set(p.properties, q.properties, kv.0, kv.1)
}

/// Sets one property on a staged run create (the same key overwrites).
pub fn nominal_run_create_set_property(
    stagings: &mut Registry<RunCreateParams>,
    err: &mut LastError,
    staging: i32,
    key: Option<&[u8]>,
    value: Option<&[u8]>,
) -> (r: i32)
    ensures
        match lookup_step(old(stagings)@, staging, "run-create staging"@) {
            Err(f) => failed_with(r, final(err)@, f) && final(stagings)@ == old(stagings)@,
            Ok(p) => match property_step(arg_view(key), arg_view(value)) {
                Ok(kv) => {
                    &&& r == 0
                    &&& final(err)@ == old(err)@
                    &&& final(stagings)@.dom() == old(stagings)@.dom()
                    &&& run_property_ok(p@, final(stagings)@[staging]@, kv)
                    &&& forall|k: i32| k != staging && #[trigger] old(stagings)@.contains_key(k)
                        ==> final(stagings)@[k] == old(stagings)@[k]
                },
                Err(f) => failed_with(r, final(err)@, f) && final(stagings)@ == old(stagings)@,
            },
        },
{
    let mut p = match take_staged(stagings, err, staging, "run-create staging") {
        Ok(p) => p,
        Err(c) => {
            return c;
        },
    };
    match read_property(err, key, value) {
        Ok(kv) => {
            p.properties.insert(kv.0, kv.1);
            stagings.put_back(staging, p);
            0
        },
        Err(c) => {
            stagings.put_back(staging, p);
            proof {
                assert(stagings@ =~= old(stagings)@);
            }
            c
        },
    }
}

/// Linking an asset to a staged run create.
pub open spec fn run_asset_step(p: RunCreateFields, arg: Option<Seq<u8>>) -> Result<RunCreateFields, (NominalErrorCode, Seq<char>)> {
    match nonempty_step(arg, "asset_rid"@) {
        Ok(a) => Ok(RunCreateFields { assets: p.assets.push(a), ..p }),
        Err(f) => Err(f),
    }
}

/// Links one asset (by its non-empty RID) to a staged run create.
pub fn nominal_run_create_add_asset(stagings: &mut Registry<RunCreateParams>, err: &mut LastError, staging: i32, asset_rid: Option<&[u8]>) -> (r: i32)
    ensures
        final(stagings).next_handle() == old(stagings).next_handle(),
        edit_post(old(stagings)@, final(stagings)@, staging, "run-create staging"@, |p: RunCreateFields| run_asset_step(p, arg_view(asset_rid)), r, old(err)@, final(err)@),
{
    let mut p = match take_staged(stagings, err, staging, "run-create staging") {
        Ok(p) => p,
        Err(c) => {
            return c;
        },
    };
    match read_nonempty_str(err, asset_rid, "asset_rid") {
        Ok(a) => {
            p.assets.push(a);
            proof {
                assert(p@.assets =~= old(stagings)@[staging]@.assets.push(a@));
            }
            stagings.put_back(staging, p);
            0
        },
        Err(c) => {
            stagings.put_back(staging, p);
            proof {
                assert(stagings@ =~= old(stagings)@);
            }
            c
        },
    }
}

/// Committing a staged run create: the client, the staging handle, then
/// the out-parameter.
pub open spec fn run_commit_step<C>(
    clients: Map<i32, C>,
    stagings: Map<i32, RunCreateParams>,
    client: i32,
    staging: i32,
    out_present: bool,
) -> Result<RunCreateRequestFields, (NominalErrorCode, Seq<char>)> {
    match client_step(clients, client) {
        Err(f) => Err(f),
        Ok(_) => match lookup_step(stagings, staging, "run-create staging"@) {
            Err(f) => Err(f),
            Ok(p) => if out_present {
                Ok(run_request_of(p@))
            } else {
                Err((NominalErrorCode::NullArgument, "out_run must not be null"@))
            },
        },
    }
}

/// Turns a staged run create into its request; the staging handle stays
/// valid.
pub fn nominal_run_create_commit<C>(
    clients: &Registry<ClientEntry<C>>,
    stagings: &Registry<RunCreateParams>,
    err: &mut LastError,
    client: i32,
    staging: i32,
    out_present: bool,
) -> (r: Result<RunCreateRequest, i32>)
    ensures
        outcome(run_commit_step(clients@, stagings@, client, staging, out_present), r, old(err)@, final(err)@),
{
    match check_client(clients, err, client) {
        Ok(_) => {},
        Err(c) => {
            return Err(c);
        },
    }
    let p = match lookup(stagings, err, staging, "run-create staging") {
        Ok(p) => p,
        Err(c) => {
            return Err(c);
        },
    };
    if !out_present {
        proof { reveal_strlit("out_run must not be null"); }
        return Err(fail_null(err, "out_run must not be null"));
    }
    Ok(
        RunCreateRequest {
            name: copy_str(&p.name),
            start_ms: p.start_ms,
            description: copy_opt(&p.description),
            end_ms: p.end_ms,
            labels: request_labels(&p.labels),
            properties: request_properties(&p.properties),
            assets: request_labels(&p.assets),
        },
    )
}

/// Frees a run-create staging handle. Freeing twice returns an error.
pub fn nominal_run_create_free(stagings: &mut Registry<RunCreateParams>, err: &mut LastError, staging: i32) -> (r: i32)
    ensures
        final(stagings)@ == old(stagings)@.remove(staging),
        final(stagings).next_handle() == old(stagings).next_handle(),
        old(stagings)@.contains_key(staging) ==> r == 0 && final(err)@ == old(err)@,
        !old(stagings)@.contains_key(staging) ==> failed_with(
            r,
            final(err)@,
            (NominalErrorCode::InvalidHandle, invalid_handle_msg("run-create staging"@, staging)),
        ),
{
    free_handle(stagings, err, staging, "run-create staging")
}

// ---------------------------------------------------------------------------
// Staged update
// ---------------------------------------------------------------------------

/// Starts staging a run update; only the fields set on it change.
pub fn nominal_run_update_begin(stagings: &mut Registry<UpdateParams>, err: &mut LastError, out_present: bool) -> (r: Result<i32, i32>)
    ensures
        begin_post(old(stagings)@, final(stagings)@, old(stagings).next_handle(), final(stagings).next_handle(), update_begin_step(out_present), r, old(err)@, final(err)@),
{
    update_begin(stagings, err, out_present)
}

/// Stages a new (non-empty) name.
pub fn nominal_run_update_set_name(stagings: &mut Registry<UpdateParams>, err: &mut LastError, staging: i32, name: Option<&[u8]>) -> (r: i32)
    ensures
        final(stagings).next_handle() == old(stagings).next_handle(),
        edit_post(old(stagings)@, final(stagings)@, staging, "run-update staging"@, |p: UpdateFields| update_name_step(p, arg_view(name)), r, old(err)@, final(err)@),
{
    update_set_name(stagings, err, staging, "run-update staging", name)
}

/// Stages a new description (empty clears the description).
pub fn nominal_run_update_set_description(stagings: &mut Registry<UpdateParams>, err: &mut LastError, staging: i32, description: Option<&[u8]>) -> (r: i32)
    ensures
        final(stagings).next_handle() == old(stagings).next_handle(),
        edit_post(old(stagings)@, final(stagings)@, staging, "run-update staging"@, |p: UpdateFields| update_description_step(p, arg_view(description)), r, old(err)@, final(err)@),
{
    update_set_description(stagings, err, staging, "run-update staging", description)
}

/// Adds one label to the staged update. Touching labels at all replaces the
/// run's whole label set with the labels staged here.
pub fn nominal_run_update_add_label(stagings: &mut Registry<UpdateParams>, err: &mut LastError, staging: i32, label: Option<&[u8]>) -> (r: i32)
    ensures
        final(stagings).next_handle() == old(stagings).next_handle(),
        edit_post(old(stagings)@, final(stagings)@, staging, "run-update staging"@, |p: UpdateFields| update_label_step(p, arg_view(label)), r, old(err)@, final(err)@),
{
    update_add_label(stagings, err, staging, "run-update staging", label)
}

/// Sets one property on the staged update (the same key overwrites).
/// Touching properties at all replaces the run's whole property map.
pub fn nominal_run_update_set_property(
    stagings: &mut Registry<UpdateParams>,
    err: &mut LastError,
    staging: i32,
    key: Option<&[u8]>,
    value: Option<&[u8]>,
) -> (r: i32)
    ensures
        match lookup_step(old(stagings)@, staging, "run-update staging"@) {
            Err(f) => failed_with(r, final(err)@, f) && final(stagings)@ == old(stagings)@,
            Ok(p) => match property_step(arg_view(key), arg_view(value)) {
                Ok(kv) => {
                    &&& r == 0
                    &&& final(err)@ == old(err)@
                    &&& final(stagings)@.dom() == old(stagings)@.dom()
                    &&& update_property_ok(p@, final(stagings)@[staging]@, kv)
                    &&& forall|k: i32| k != staging && #[trigger] old(stagings)@.contains_key(k)
                        ==> final(stagings)@[k] == old(stagings)@[k]
                },
                Err(f) => failed_with(r, final(err)@, f) && final(stagings)@ == old(stagings)@,
            },
        },
{
    update_set_property(stagings, err, staging, "run-update staging", key, value)
}

/// Stages a new start time.
pub fn nominal_run_update_set_start(stagings: &mut Registry<UpdateParams>, err: &mut LastError, staging: i32, start: &MillisArg) -> (r: i32)
    ensures
        final(stagings).next_handle() == old(stagings).next_handle(),
        edit_post(old(stagings)@, final(stagings)@, staging, "run-update staging"@, |p: UpdateFields| update_start_step(p, *start), r, old(err)@, final(err)@),
{
    update_set_start(stagings, err, staging, "run-update staging", start)
}

/// Stages a new end time.
pub fn nominal_run_update_set_end(stagings: &mut Registry<UpdateParams>, err: &mut LastError, staging: i32, end: &MillisArg) -> (r: i32)
    ensures
        final(stagings).next_handle() == old(stagings).next_handle(),
        edit_post(old(stagings)@, final(stagings)@, staging, "run-update staging"@, |p: UpdateFields| update_end_step(p, *end), r, old(err)@, final(err)@),
{
    update_set_end(stagings, err, staging, "run-update staging", end)
}

/// Turns a staged run update into the RID to update and its request. At
/// least one field must have been staged; the staging handle stays valid.
pub fn nominal_run_update_commit<C>(
    clients: &Registry<ClientEntry<C>>,
    stagings: &Registry<UpdateParams>,
    err: &mut LastError,
    client: i32,
    rid: Option<&[u8]>,
    staging: i32,
    out_present: bool,
) -> (r: Result<(String, UpdateRequest), i32>)
    ensures
        match update_commit_step(clients@, stagings@, client, arg_view(rid), staging, "run-update staging"@, out_present, "out_run must not be null"@) {
            Ok(v) => (r matches Ok(req) && req.0@ == v.0 && req.1@ == v.1) && final(err)@ == old(err)@,
            Err(f) => r matches Err(c) && failed_with(c, final(err)@, f),
        },
{
    proof { reveal_strlit("out_run must not be null"); }
    update_commit(clients, stagings, err, client, rid, staging, "run-update staging", out_present, "out_run must not be null")
}

/// Frees a run-update staging handle. Freeing twice returns an error.
pub fn nominal_run_update_free(stagings: &mut Registry<UpdateParams>, err: &mut LastError, staging: i32) -> (r: i32)
    ensures
        final(stagings)@ == old(stagings)@.remove(staging),
        final(stagings).next_handle() == old(stagings).next_handle(),
        old(stagings)@.contains_key(staging) ==> r == 0 && final(err)@ == old(err)@,
        !old(stagings)@.contains_key(staging) ==> failed_with(
            r,
            final(err)@,
            (NominalErrorCode::InvalidHandle, invalid_handle_msg("run-update staging"@, staging)),
        ),
{
    free_handle(stagings, err, staging, "run-update staging")
}

// ---------------------------------------------------------------------------
// Field getters
// ---------------------------------------------------------------------------

/// Writes the run's RID into the caller buffer.
pub fn nominal_run_rid(runs: &Registry<RunRecord>, err: &mut LastError, run: i32, buf_present: bool, cap: u32) -> (r: StrOut)
    ensures
        str_getter(runs@, run, "run"@, |a: RunRecord| a.rid@, buf_present, cap, r, old(err)@, final(err)@),
{
    match lookup(runs, err, run, "run") {
        Ok(a) => write_str_field(err, a.rid.as_str(), buf_present, cap as u64),
        Err(code) => str_failed(code),
    }
}

/// Writes the run's name into the caller buffer.
pub fn nominal_run_name(runs: &Registry<RunRecord>, err: &mut LastError, run: i32, buf_present: bool, cap: u32) -> (r: StrOut)
    ensures
        str_getter(runs@, run, "run"@, |a: RunRecord| a.name@, buf_present, cap, r, old(err)@, final(err)@),
{
    match lookup(runs, err, run, "run") {
        Ok(a) => write_str_field(err, a.name.as_str(), buf_present, cap as u64),
        Err(code) => str_failed(code),
    }
}

/// Writes the run's description into the caller buffer.
pub fn nominal_run_description(runs: &Registry<RunRecord>, err: &mut LastError, run: i32, buf_present: bool, cap: u32) -> (r: StrOut)
    ensures
        str_getter(runs@, run, "run"@, |a: RunRecord| a.description@, buf_present, cap, r, old(err)@, final(err)@),
{
    match lookup(runs, err, run, "run") {
        Ok(a) => write_str_field(err, a.description.as_str(), buf_present, cap as u64),
        Err(code) => str_failed(code),
    }
}

/// Writes the URL for viewing the run in the Nominal web app.
pub fn nominal_run_url(runs: &Registry<RunRecord>, err: &mut LastError, run: i32, buf_present: bool, cap: u32) -> (r: StrOut)
    ensures
        str_getter(runs@, run, "run"@, |a: RunRecord| a.url@, buf_present, cap, r, old(err)@, final(err)@),
{
    match lookup(runs, err, run, "run") {
        Ok(a) => write_str_field(err, a.url.as_str(), buf_present, cap as u64),
        Err(code) => str_failed(code),
    }
}

/// The run's creation time, Unix milliseconds (UTC).
pub fn nominal_run_created_at(runs: &Registry<RunRecord>, err: &mut LastError, run: i32, out_present: bool) -> (r: Result<i64, i32>)
    ensures
        value_getter(runs@, run, "run"@, |a: RunRecord| a.created_at_ms, out_present, "out_millis must not be null"@, r, old(err)@, final(err)@),
{
    match lookup(runs, err, run, "run") {
        Ok(a) => {
            if !out_present {
                proof { reveal_strlit("out_millis must not be null"); }
                return Err(fail_null(err, "out_millis must not be null"));
            }
            Ok(a.created_at_ms)
        },
        Err(code) => Err(code),
    }
}

/// The number of properties on the run.
pub fn nominal_run_property_count(runs: &Registry<RunRecord>, err: &mut LastError, run: i32, out_present: bool) -> (r: Result<u32, i32>)
    ensures
        count_getter(runs@, run, "run"@, |a: RunRecord| a.properties@.len(), out_present, r, old(err)@, final(err)@),
{
    match lookup(runs, err, run, "run") {
        Ok(a) => write_count(err, a.properties.len(), out_present),
        Err(code) => Err(code),
    }
}

/// Writes the key of the property at `index` (0-based, sorted-key order).
pub fn nominal_run_property_key_at(runs: &Registry<RunRecord>, err: &mut LastError, run: i32, index: i32, buf_present: bool, cap: u32) -> (r: StrOut)
    ensures
        indexed_str_getter(runs@, run, "run"@, |a: RunRecord| prop_keys(a.properties@), index, buf_present, cap, r, old(err)@, final(err)@),
{
    match lookup(runs, err, run, "run") {
        Ok(a) => write_property_key_at(err, &a.properties, index, buf_present, cap),
        Err(code) => str_failed(code),
    }
}

/// Writes the value of the property at `index` (0-based, sorted-key order).
pub fn nominal_run_property_value_at(runs: &Registry<RunRecord>, err: &mut LastError, run: i32, index: i32, buf_present: bool, cap: u32) -> (r: StrOut)
    ensures
        indexed_str_getter(runs@, run, "run"@, |a: RunRecord| prop_values(a.properties@), index, buf_present, cap, r, old(err)@, final(err)@),
{
    match lookup(runs, err, run, "run") {
        Ok(a) => write_property_value_at(err, &a.properties, index, buf_present, cap),
        Err(code) => str_failed(code),
    }
}

/// The number of labels on the run.
pub fn nominal_run_label_count(runs: &Registry<RunRecord>, err: &mut LastError, run: i32, out_present: bool) -> (r: Result<u32, i32>)
    ensures
        count_getter(runs@, run, "run"@, |a: RunRecord| a.labels@.len(), out_present, r, old(err)@, final(err)@),
{
    match lookup(runs, err, run, "run") {
        Ok(a) => write_count(err, a.labels.len(), out_present),
        Err(code) => Err(code),
    }
}

/// Writes the label at `index` (0-based).
pub fn nominal_run_label_at(runs: &Registry<RunRecord>, err: &mut LastError, run: i32, index: i32, buf_present: bool, cap: u32) -> (r: StrOut)
    ensures
        indexed_str_getter(runs@, run, "run"@, |a: RunRecord| strings_view(a.labels@), index, buf_present, cap, r, old(err)@, final(err)@),
{
    match lookup(runs, err, run, "run") {
        Ok(a) => write_item_at(err, &a.labels, index, buf_present, cap),
        Err(code) => str_failed(code),
    }
}

/// The run's number.
pub fn nominal_run_number(runs: &Registry<RunRecord>, err: &mut LastError, run: i32, out_present: bool) -> (r: Result<u32, i32>)
    ensures
        value_getter(runs@, run, "run"@, |a: RunRecord| a.run_number, out_present, "out_number must not be null"@, r, old(err)@, final(err)@),
{
    match lookup(runs, err, run, "run") {
        Ok(a) => {
            if !out_present {
                proof { reveal_strlit("out_number must not be null"); }
                return Err(fail_null(err, "out_number must not be null"));
            }
            Ok(a.run_number)
        },
        Err(code) => Err(code),
    }
}

/// The run's start time, Unix milliseconds (UTC).
pub fn nominal_run_start(runs: &Registry<RunRecord>, err: &mut LastError, run: i32, out_present: bool) -> (r: Result<i64, i32>)
    ensures
        value_getter(runs@, run, "run"@, |a: RunRecord| a.start_ms, out_present, "out_millis must not be null"@, r, old(err)@, final(err)@),
{
    match lookup(runs, err, run, "run") {
        Ok(a) => {
            if !out_present {
                proof { reveal_strlit("out_millis must not be null"); }
                return Err(fail_null(err, "out_millis must not be null"));
            }
            Ok(a.start_ms)
        },
        Err(code) => Err(code),
    }
}

/// The run's end time, Unix milliseconds (UTC), absent for a run that is
/// still going. Both out-parameters are required.
pub fn nominal_run_end(runs: &Registry<RunRecord>, err: &mut LastError, run: i32, outs_present: bool) -> (r: Result<Option<i64>, i32>)
    ensures
        value_getter(runs@, run, "run"@, |a: RunRecord| a.end_ms, outs_present, "out_millis and is_present must not be null"@, r, old(err)@, final(err)@),
{
    match lookup(runs, err, run, "run") {
        Ok(a) => {
            if !outs_present {
                proof { reveal_strlit("out_millis and is_present must not be null"); }
                return Err(fail_null(err, "out_millis and is_present must not be null"));
            }
            Ok(a.end_ms)
        },
        Err(code) => Err(code),
    }
}

/// The number of assets linked to the run.
pub fn nominal_run_asset_count(runs: &Registry<RunRecord>, err: &mut LastError, run: i32, out_present: bool) -> (r: Result<u32, i32>)
    ensures
        count_getter(runs@, run, "run"@, |a: RunRecord| a.assets@.len(), out_present, r, old(err)@, final(err)@),
{
    match lookup(runs, err, run, "run") {
        Ok(a) => write_count(err, a.assets.len(), out_present),
        Err(code) => Err(code),
    }
}

/// Writes the RID of the linked asset at `index` (0-based).
pub fn nominal_run_asset_rid_at(runs: &Registry<RunRecord>, err: &mut LastError, run: i32, index: i32, buf_present: bool, cap: u32) -> (r: StrOut)
    ensures
        indexed_str_getter(runs@, run, "run"@, |a: RunRecord| strings_view(a.assets@), index, buf_present, cap, r, old(err)@, final(err)@),
{
    match lookup(runs, err, run, "run") {
        Ok(a) => write_item_at(err, &a.assets, index, buf_present, cap),
        Err(code) => str_failed(code),
    }
}

/// The number of data sources attached to the run (none for multi-asset
/// runs, whose data sources live on the assets).
pub fn nominal_run_data_source_count(runs: &Registry<RunRecord>, err: &mut LastError, run: i32, out_present: bool) -> (r: Result<u32, i32>)
    ensures
        count_getter(runs@, run, "run"@, |a: RunRecord| a.data_sources@.len(), out_present, r, old(err)@, final(err)@),
{
    match lookup(runs, err, run, "run") {
        Ok(a) => write_count(err, a.data_sources.len(), out_present),
        Err(code) => Err(code),
    }
}

/// Writes the ref name of the data source at `index` (0-based, sorted-name
/// order).
pub fn nominal_run_data_source_name_at(runs: &Registry<RunRecord>, err: &mut LastError, run: i32, index: i32, buf_present: bool, cap: u32) -> (r: StrOut)
    ensures
        indexed_str_getter(runs@, run, "run"@, |a: RunRecord| keys_of(a.data_sources@), index, buf_present, cap, r, old(err)@, final(err)@),
{
    match lookup(runs, err, run, "run") {
        Ok(a) => write_source_name_at(err, &a.data_sources, index, buf_present, cap),
        Err(code) => str_failed(code),
    }
}

/// Writes the RID of the data source at `index` (0-based, sorted-name
/// order).
pub fn nominal_run_data_source_rid_at(runs: &Registry<RunRecord>, err: &mut LastError, run: i32, index: i32, buf_present: bool, cap: u32) -> (r: StrOut)
    ensures
        indexed_str_getter(runs@, run, "run"@, |a: RunRecord| source_rids(a.data_sources@), index, buf_present, cap, r, old(err)@, final(err)@),
{
    match lookup(runs, err, run, "run") {
        Ok(a) => write_source_rid_at(err, &a.data_sources, index, buf_present, cap),
        Err(code) => str_failed(code),
    }
}

/// The kind of the data source at `index` (0-based, sorted-name order), as
/// a data-source type number.
pub fn nominal_run_data_source_type_at(runs: &Registry<RunRecord>, err: &mut LastError, run: i32, index: i32, out_present: bool) -> (r: Result<i32, i32>)
    ensures
        match lookup_step(runs@, run, "run"@) {
            Ok(a) => source_type_spec(a.data_sources@, index, out_present, r, old(err)@, final(err)@),
            Err(f) => r matches Err(c) && failed_with(c, final(err)@, f),
        },
{
    match lookup(runs, err, run, "run") {
        Ok(a) => source_type_at(err, &a.data_sources, index, out_present),
        Err(code) => Err(code),
    }
}

} // verus!
