//! `nominal_asset_*`: assets, their staged creates and updates, and their
//! fields.
//!
//! Collection fields (properties, labels, data sources) are read as
//! `_count` plus `_at(index)`. Properties and data sources are kept in
//! ascending key order, so indices are stable and `_key_at(i)` /
//! `_value_at(i)` always describe the same entry.

use vstd::prelude::*;

use crate::actions::{flat_create_action, flat_create_step, flat_update_action, flat_update_step, get_action, get_step, list_action, list_step, rid_action, rid_step};
use crate::client::ClientEntry;
use crate::error::{LastError, NominalErrorCode};
use crate::fields::{
    count_getter, fail_null, indexed_str_getter, indexed_str_spec, opt_str_getter, prop_keys, prop_values,
    str_failed, str_getter, value_getter, write_count, write_item_at, write_opt_string, write_property_key_at,
    write_property_value_at,
};
use crate::handles::{
    begin_post, edit_post, failed_with, free_handle, index_error, index_msg, invalid_handle_msg, lookup,
    lookup_step, outcome, Registry,
};
use crate::search::{catalog_search, catalog_search_step, SearchQuery};
use crate::sorted::{keys_of, strings_view, SortedMap};
use crate::staging::{
    create_add_label, create_begin, create_begin_step, create_commit, create_commit_step, create_description_step,
    create_label_step, create_property_ok, create_set_description, create_set_property, opt_view, property_step,
    update_add_label, update_begin, update_begin_step, update_commit, update_commit_step, update_description_step,
    update_label_step, update_name_step, update_property_ok, update_set_description, update_set_name,
    update_set_property, flat_create_request, flat_create_request_of, flat_update_request, flat_update_request_of,
    CreateFields, CreateParams, CreateRequest, UpdateFields, UpdateParams, UpdateRequest,
};
use crate::strings::{arg_view, str_out_failed, str_field_spec, write_str_field, StrOut};

verus! {

/// The kind of a data source attached to an asset or run.
#[derive(Debug, Clone, Copy, PartialEq, Eq, Structural)]
pub enum NominalDataSourceType {
    Dataset,
    Video,
    Connection,
}

/// The number that stands for a data-source kind at the boundary.
pub open spec fn data_source_type_value(t: NominalDataSourceType) -> i32 {
    match t {
        NominalDataSourceType::Dataset => 0,
        NominalDataSourceType::Video => 1,
        NominalDataSourceType::Connection => 2,
    }
}

impl NominalDataSourceType {
    /// The number that stands for this kind at the boundary.
    pub fn code(&self) -> (r: i32)
        ensures
            r == data_source_type_value(*self),
    {
        match self {
            NominalDataSourceType::Dataset => 0,
            NominalDataSourceType::Video => 1,
            NominalDataSourceType::Connection => 2,
        }
    }
}

/// A data source attached under a scope or ref name: its kind and RID.
#[derive(Debug)]
pub struct DataSourceRef {
    pub kind: NominalDataSourceType,
    pub rid: String,
}

impl View for DataSourceRef {
    type V = (NominalDataSourceType, Seq<char>);

    open spec fn view(&self) -> (NominalDataSourceType, Seq<char>) {
        (self.kind, self.rid@)
    }
}

/// The RIDs of data sources, in ascending name order.
pub open spec fn source_rids(m: Seq<(Seq<char>, (NominalDataSourceType, Seq<char>))>) -> Seq<Seq<char>> {
    m.map_values(|e: (Seq<char>, (NominalDataSourceType, Seq<char>))| e.1.1)
}

/// The data source at `index`, in sorted-name order, so that `index` means
/// the same entry across the count, name, RID and type calls.
pub fn data_source_at<'a>(err: &mut LastError, sources: &'a SortedMap<DataSourceRef>, index: i32) -> (r: Result<(&'a str, &'a DataSourceRef), i32>)
    ensures
        0 <= index < sources@.len() ==> (r matches Ok(e) && e.0@ == sources@[index as int].0 && e.1@
            == sources@[index as int].1) && final(err)@ == old(err)@,
        !(0 <= index < sources@.len()) ==> (r matches Err(c) && failed_with(
            c,
            final(err)@,
            (NominalErrorCode::IndexOutOfRange, index_msg(index, sources@.len())),
        )),
{
    let n = sources.len();
    if index < 0 || index as usize >= n {
        return Err(index_error(err, index, n));
    }
    Ok((sources.key_at(index as usize), sources.value_at(index as usize)))
}

/// Writes the name of the data source at `index` into the caller buffer.
pub fn write_source_name_at(err: &mut LastError, sources: &SortedMap<DataSourceRef>, index: i32, buf_present: bool, cap: u32) -> (r: StrOut)
    ensures
        indexed_str_spec(keys_of(sources@), index, buf_present, cap, r, old(err)@, final(err)@),
{
    match data_source_at(err, sources, index) {
        Ok(e) => write_str_field(err, e.0, buf_present, cap as u64),
        Err(code) => str_failed(code),
    }
}

/// Writes the RID of the data source at `index` into the caller buffer.
pub fn write_source_rid_at(err: &mut LastError, sources: &SortedMap<DataSourceRef>, index: i32, buf_present: bool, cap: u32) -> (r: StrOut)
    ensures
        indexed_str_spec(source_rids(sources@), index, buf_present, cap, r, old(err)@, final(err)@),
{
    match data_source_at(err, sources, index) {
        Ok(e) => write_str_field(err, e.1.rid.as_str(), buf_present, cap as u64),
        Err(code) => str_failed(code),
    }
}

/// What the data-source type getter gives for `sources`: the kind's number
/// at `index`, the null-out-parameter failure, or the out-of-range failure.
pub open spec fn source_type_spec(
    sources: Seq<(Seq<char>, (NominalDataSourceType, Seq<char>))>,
    index: i32,
    out_present: bool,
    r: Result<i32, i32>,
    old_err: Seq<char>,
    new_err: Seq<char>,
) -> bool {
    if !out_present {
        r matches Err(c) && failed_with(c, new_err, (NominalErrorCode::NullArgument, "out_type must not be null"@))
    } else if 0 <= index < sources.len() {
        r == Ok::<i32, i32>(data_source_type_value(sources[index as int].1.0)) && new_err == old_err
    } else {
        r matches Err(c) && failed_with(c, new_err, (NominalErrorCode::IndexOutOfRange, index_msg(index, sources.len())))
    }
}

/// The kind of the data source at `index`, as its boundary number.
pub fn source_type_at(err: &mut LastError, sources: &SortedMap<DataSourceRef>, index: i32, out_present: bool) -> (r: Result<i32, i32>)
    ensures
        source_type_spec(sources@, index, out_present, r, old(err)@, final(err)@),
{
    if !out_present {
        proof { reveal_strlit("out_type must not be null"); }
        return Err(fail_null(err, "out_type must not be null"));
    }
    match data_source_at(err, sources, index) {
        Ok(e) => Ok(e.1.kind.code()),
        Err(code) => Err(code),
    }
}

/// An asset as its getters report it.
#[derive(Debug)]
pub struct AssetRecord {
    pub rid: String,
    pub name: String,
    pub description: Option<String>,
    /// Where the asset is viewed in the Nominal web app.
    pub url: String,
    /// Unix milliseconds, UTC.
    pub created_at_ms: i64,
    pub properties: SortedMap<String>,
    pub labels: Vec<String>,
    /// Keyed by scope name.
    pub data_sources: SortedMap<DataSourceRef>,
}

// ---------------------------------------------------------------------------
// Actions
// ---------------------------------------------------------------------------

/// Checks the creation of an asset with a name and (optional, null or
/// empty = none) description, and yields the request.
pub fn nominal_asset_create<C>(
    clients: &Registry<ClientEntry<C>>,
    err: &mut LastError,
    client: i32,
    name: Option<&[u8]>,
    description: Option<&[u8]>,
    out_present: bool,
) -> (r: Result<CreateRequest, i32>)
    ensures
        match flat_create_step(clients@, client, arg_view(name), arg_view(description), out_present, "out_asset must not be null"@) {
            Ok(v) => (r matches Ok(req) && req@ == flat_create_request(v)) && final(err)@ == old(err)@,
            Err(f) => r matches Err(c) && failed_with(c, final(err)@, f),
        },
{
    proof { reveal_strlit("out_asset must not be null"); }
    match flat_create_action(clients, err, client, name, description, out_present, "out_asset must not be null") {
        Ok(v) => Ok(flat_create_request_of(v)),
        Err(c) => Err(c),
    }
}

/// Checks fetching the asset with the given RID and yields the RID.
pub fn nominal_asset_get<C>(clients: &Registry<ClientEntry<C>>, err: &mut LastError, client: i32, rid: Option<&[u8]>, out_present: bool) -> (r: Result<String, i32>)
    ensures
        outcome(get_step(clients@, client, arg_view(rid), out_present, "out_asset must not be null"@), r, old(err)@, final(err)@),
{
    proof { reveal_strlit("out_asset must not be null"); }
    get_action(clients, err, client, rid, out_present, "out_asset must not be null")
}

/// Checks listing all assets.
pub fn nominal_asset_list<C>(clients: &Registry<ClientEntry<C>>, err: &mut LastError, client: i32, outs_present: bool) -> (r: Result<(), i32>)
    ensures
        outcome(list_step(clients@, client, outs_present), r, old(err)@, final(err)@),
{
    list_action(clients, err, client, outs_present)
}

/// Checks a search of assets and yields its filters: text (fuzzy match on
/// name and description), label, and property key plus value (both or
/// neither), each optional and combined with AND.
pub fn nominal_asset_search<C>(
    clients: &Registry<ClientEntry<C>>,
    err: &mut LastError,
    client: i32,
    search_text: Option<&[u8]>,
    label: Option<&[u8]>,
    property_key: Option<&[u8]>,
    property_value: Option<&[u8]>,
    outs_present: bool,
) -> (r: Result<SearchQuery, i32>)
    ensures
        outcome(
            catalog_search_step(
                clients@,
                client,
                arg_view(search_text),
                arg_view(label),
                arg_view(property_key),
                arg_view(property_value),
                outs_present,
            ),
            r,
            old(err)@,
            final(err)@,
        ),
{
    catalog_search(clients, err, client, search_text, label, property_key, property_value, outs_present)
}

/// Checks an update of an asset's name and/or description (null or empty
/// leaves a field unchanged) and yields the RID and request.
pub fn nominal_asset_update<C>(
    clients: &Registry<ClientEntry<C>>,
    err: &mut LastError,
    client: i32,
    rid: Option<&[u8]>,
    name: Option<&[u8]>,
    description: Option<&[u8]>,
    out_present: bool,
) -> (r: Result<(String, UpdateRequest), i32>)
    ensures
        match flat_update_step(clients@, client, arg_view(rid), arg_view(name), arg_view(description), out_present, "out_asset must not be null"@) {
            Ok(v) => (r matches Ok(x) && (x.0@, x.1@) == flat_update_request(v)) && final(err)@ == old(err)@,
            Err(f) => r matches Err(c) && failed_with(c, final(err)@, f),
        },
{
    proof { reveal_strlit("out_asset must not be null"); }
    match flat_update_action(clients, err, client, rid, name, description, out_present, "out_asset must not be null") {
        Ok(v) => Ok(flat_update_request_of(v)),
        Err(c) => Err(c),
    }
}

/// Checks archiving an asset (hidden from the UI, not deleted).
pub fn nominal_asset_archive<C>(clients: &Registry<ClientEntry<C>>, err: &mut LastError, client: i32, rid: Option<&[u8]>) -> (r: Result<String, i32>)
    ensures
        outcome(rid_step(clients@, client, arg_view(rid)), r, old(err)@, final(err)@),
{
    rid_action(clients, err, client, rid)
}

/// Checks unarchiving an asset.
pub fn nominal_asset_unarchive<C>(clients: &Registry<ClientEntry<C>>, err: &mut LastError, client: i32, rid: Option<&[u8]>) -> (r: Result<String, i32>)
    ensures
        outcome(rid_step(clients@, client, arg_view(rid)), r, old(err)@, final(err)@),
{
    rid_action(clients, err, client, rid)
}

/// Frees an asset handle. Freeing twice returns an error.
pub fn nominal_asset_free(assets: &mut Registry<AssetRecord>, err: &mut LastError, asset: i32) -> (r: i32)
    ensures
        final(assets)@ == old(assets)@.remove(asset),
        final(assets).next_handle() == old(assets).next_handle(),
        old(assets)@.contains_key(asset) ==> r == 0 && final(err)@ == old(err)@,
        !old(assets)@.contains_key(asset) ==> failed_with(
            r,
            final(err)@,
            (NominalErrorCode::InvalidHandle, invalid_handle_msg("asset"@, asset)),
        ),
{
    free_handle(assets, err, asset, "asset")
}

// ---------------------------------------------------------------------------
// Staged create
// ---------------------------------------------------------------------------

/// Starts staging an asset create with the (required, not empty) name.
pub fn nominal_asset_create_begin(stagings: &mut Registry<CreateParams>, err: &mut LastError, name: Option<&[u8]>, out_present: bool) -> (r: Result<i32, i32>)
    ensures
        begin_post(old(stagings)@, final(stagings)@, old(stagings).next_handle(), final(stagings).next_handle(), create_begin_step(arg_view(name), out_present), r, old(err)@, final(err)@),
{
    create_begin(stagings, err, name, out_present)
}

/// Sets the description of a staged asset create (null or empty clears it).
pub fn nominal_asset_create_set_description(stagings: &mut Registry<CreateParams>, err: &mut LastError, staging: i32, description: Option<&[u8]>) -> (r: i32)
    ensures
        final(stagings).next_handle() == old(stagings).next_handle(),
        edit_post(old(stagings)@, final(stagings)@, staging, "asset-create staging"@, |p: CreateFields| create_description_step(p, arg_view(description)), r, old(err)@, final(err)@),
{
    create_set_description(stagings, err, staging, "asset-create staging", description)
}

/// Adds one label to a staged asset create.
pub fn nominal_asset_create_add_label(stagings: &mut Registry<CreateParams>, err: &mut LastError, staging: i32, label: Option<&[u8]>) -> (r: i32)
    ensures
        final(stagings).next_handle() == old(stagings).next_handle(),
        edit_post(old(stagings)@, final(stagings)@, staging, "asset-create staging"@, |p: CreateFields| create_label_step(p, arg_view(label)), r, old(err)@, final(err)@),
{
    create_add_label(stagings, err, staging, "asset-create staging", label)
}

/// Sets one property on a staged asset create (the same key overwrites).
pub fn nominal_asset_create_set_property(
    stagings: &mut Registry<CreateParams>,
    err: &mut LastError,
    staging: i32,
    key: Option<&[u8]>,
    value: Option<&[u8]>,
) -> (r: i32)
    ensures
        match lookup_step(old(stagings)@, staging, "asset-create staging"@) {
            Err(f) => failed_with(r, final(err)@, f) && final(stagings)@ == old(stagings)@,
            Ok(p) => match property_step(arg_view(key), arg_view(value)) {
                Ok(kv) => {
                    &&& r == 0
                    &&& final(err)@ == old(err)@
                    &&& final(stagings)@.dom() == old(stagings)@.dom()
                    &&& create_property_ok(p@, final(stagings)@[staging]@, kv)
                    &&& forall|k: i32| k != staging && #[trigger] old(stagings)@.contains_key(k)
                        ==> final(stagings)@[k] == old(stagings)@[k]
                },
                Err(f) => failed_with(r, final(err)@, f) && final(stagings)@ == old(stagings)@,
            },
        },
{
    create_set_property(stagings, err, staging, "asset-create staging", key, value)
}

/// Turns a staged asset create into its request; the staging handle stays
/// valid.
pub fn nominal_asset_create_commit<C>(
    clients: &Registry<ClientEntry<C>>,
    stagings: &Registry<CreateParams>,
    err: &mut LastError,
    client: i32,
    staging: i32,
    out_present: bool,
) -> (r: Result<CreateRequest, i32>)
    ensures
        outcome(
            create_commit_step(clients@, stagings@, client, staging, "asset-create staging"@, out_present, "out_asset must not be null"@),
            r,
            old(err)@,
            final(err)@,
        ),
{
    proof { reveal_strlit("out_asset must not be null"); }
    create_commit(clients, stagings, err, client, staging, "asset-create staging", out_present, "out_asset must not be null")
}

/// Frees an asset-create staging handle. Freeing twice returns an error.
pub fn nominal_asset_create_free(stagings: &mut Registry<CreateParams>, err: &mut LastError, staging: i32) -> (r: i32)
    ensures
        final(stagings)@ == old(stagings)@.remove(staging),
        final(stagings).next_handle() == old(stagings).next_handle(),
        old(stagings)@.contains_key(staging) ==> r == 0 && final(err)@ == old(err)@,
        !old(stagings)@.contains_key(staging) ==> failed_with(
            r,
            final(err)@,
            (NominalErrorCode::InvalidHandle, invalid_handle_msg("asset-create staging"@, staging)),
        ),
{
    free_handle(stagings, err, staging, "asset-create staging")
}

// ---------------------------------------------------------------------------
// Staged update
// ---------------------------------------------------------------------------

/// Starts staging an asset update; only the fields set on it change.
pub fn nominal_asset_update_begin(stagings: &mut Registry<UpdateParams>, err: &mut LastError, out_present: bool) -> (r: Result<i32, i32>)
    ensures
        begin_post(old(stagings)@, final(stagings)@, old(stagings).next_handle(), final(stagings).next_handle(), update_begin_step(out_present), r, old(err)@, final(err)@),
{
    update_begin(stagings, err, out_present)
}

/// Stages a new (non-empty) name.
pub fn nominal_asset_update_set_name(stagings: &mut Registry<UpdateParams>, err: &mut LastError, staging: i32, name: Option<&[u8]>) -> (r: i32)
    ensures
        final(stagings).next_handle() == old(stagings).next_handle(),
        edit_post(old(stagings)@, final(stagings)@, staging, "asset-update staging"@, |p: UpdateFields| update_name_step(p, arg_view(name)), r, old(err)@, final(err)@),
{
    update_set_name(stagings, err, staging, "asset-update staging", name)
}

/// Stages a new description (empty clears the description).
pub fn nominal_asset_update_set_description(stagings: &mut Registry<UpdateParams>, err: &mut LastError, staging: i32, description: Option<&[u8]>) -> (r: i32)
    ensures
        final(stagings).next_handle() == old(stagings).next_handle(),
        edit_post(old(stagings)@, final(stagings)@, staging, "asset-update staging"@, |p: UpdateFields| update_description_step(p, arg_view(description)), r, old(err)@, final(err)@),
{
    update_set_description(stagings, err, staging, "asset-update staging", description)
}

/// Adds one label to the staged update. Touching labels at all replaces the
/// asset's whole label set with the labels staged here.
pub fn nominal_asset_update_add_label(stagings: &mut Registry<UpdateParams>, err: &mut LastError, staging: i32, label: Option<&[u8]>) -> (r: i32)
    ensures
        final(stagings).next_handle() == old(stagings).next_handle(),
        edit_post(old(stagings)@, final(stagings)@, staging, "asset-update staging"@, |p: UpdateFields| update_label_step(p, arg_view(label)), r, old(err)@, final(err)@),
{
    update_add_label(stagings, err, staging, "asset-update staging", label)
}

/// Sets one property on the staged update (the same key overwrites).
/// Touching properties at all replaces the asset's whole property map.
pub fn nominal_asset_update_set_property(
    stagings: &mut Registry<UpdateParams>,
    err: &mut LastError,
    staging: i32,
    key: Option<&[u8]>,
    value: Option<&[u8]>,
) -> (r: i32)
    ensures
        match lookup_step(old(stagings)@, staging, "asset-update staging"@) {
            Err(f) => failed_with(r, final(err)@, f) && final(stagings)@ == old(stagings)@,
            Ok(p) => match property_step(arg_view(key), arg_view(value)) {
                Ok(kv) => {
                    &&& r == 0
                    &&& final(err)@ == old(err)@
                    &&& final(stagings)@.dom() == old(stagings)@.dom()
                    &&& update_property_ok(p@, final(stagings)@[staging]@, kv)
                    &&& forall|k: i32| k != staging && #[trigger] old(stagings)@.contains_key(k)
                        ==> final(stagings)@[k] == old(stagings)@[k]
                },
                Err(f) => failed_with(r, final(err)@, f) && final(stagings)@ == old(stagings)@,
            },
        },
{
    update_set_property(stagings, err, staging, "asset-update staging", key, value)
}

/// Turns a staged asset update into the RID to update and its request. At
/// least one field must have been staged; the staging handle stays valid.
pub fn nominal_asset_update_commit<C>(
    clients: &Registry<ClientEntry<C>>,
    stagings: &Registry<UpdateParams>,
    err: &mut LastError,
    client: i32,
    rid: Option<&[u8]>,
    staging: i32,
    out_present: bool,
) -> (r: Result<(String, UpdateRequest), i32>)
    ensures
        match update_commit_step(clients@, stagings@, client, arg_view(rid), staging, "asset-update staging"@, out_present, "out_asset must not be null"@) {
            Ok(v) => (r matches Ok(req) && req.0@ == v.0 && req.1@ == v.1) && final(err)@ == old(err)@,
            Err(f) => r matches Err(c) && failed_with(c, final(err)@, f),
        },
{
    proof { reveal_strlit("out_asset must not be null"); }
    update_commit(clients, stagings, err, client, rid, staging, "asset-update staging", out_present, "out_asset must not be null")
}

/// Frees an asset-update staging handle. Freeing twice returns an error.
pub fn nominal_asset_update_free(stagings: &mut Registry<UpdateParams>, err: &mut LastError, staging: i32) -> (r: i32)
    ensures
        final(stagings)@ == old(stagings)@.remove(staging),
        final(stagings).next_handle() == old(stagings).next_handle(),
        old(stagings)@.contains_key(staging) ==> r == 0 && final(err)@ == old(err)@,
        !old(stagings)@.contains_key(staging) ==> failed_with(
            r,
            final(err)@,
            (NominalErrorCode::InvalidHandle, invalid_handle_msg("asset-update staging"@, staging)),
        ),
{
    free_handle(stagings, err, staging, "asset-update staging")
}

// ---------------------------------------------------------------------------
// Field getters
// ---------------------------------------------------------------------------

/// Writes the asset's RID into the caller buffer.
pub fn nominal_asset_rid(assets: &Registry<AssetRecord>, err: &mut LastError, asset: i32, buf_present: bool, cap: u32) -> (r: StrOut)
    ensures
        str_getter(assets@, asset, "asset"@, |a: AssetRecord| a.rid@, buf_present, cap, r, old(err)@, final(err)@),
{
    match lookup(assets, err, asset, "asset") {
        Ok(a) => write_str_field(err, a.rid.as_str(), buf_present, cap as u64),
        Err(code) => str_failed(code),
    }
}

/// Writes the asset's name into the caller buffer.
pub fn nominal_asset_name(assets: &Registry<AssetRecord>, err: &mut LastError, asset: i32, buf_present: bool, cap: u32) -> (r: StrOut)
    ensures
        str_getter(assets@, asset, "asset"@, |a: AssetRecord| a.name@, buf_present, cap, r, old(err)@, final(err)@),
{
    match lookup(assets, err, asset, "asset") {
        Ok(a) => write_str_field(err, a.name.as_str(), buf_present, cap as u64),
        Err(code) => str_failed(code),
    }
}

/// Writes the asset's description into the caller buffer and whether one is
/// set (an absent description reports 0 bytes needed).
pub fn nominal_asset_description(assets: &Registry<AssetRecord>, err: &mut LastError, asset: i32, buf_present: bool, cap: u32) -> (r: StrOut)
    ensures
        opt_str_getter(assets@, asset, "asset"@, |a: AssetRecord| opt_view(a.description), buf_present, cap, r, old(err)@, final(err)@),
{
    match lookup(assets, err, asset, "asset") {
        Ok(a) => write_opt_string(err, &a.description, buf_present, cap),
        Err(code) => str_failed(code),
    }
}

/// Writes the URL for viewing the asset in the Nominal web app.
pub fn nominal_asset_url(assets: &Registry<AssetRecord>, err: &mut LastError, asset: i32, buf_present: bool, cap: u32) -> (r: StrOut)
    ensures
        str_getter(assets@, asset, "asset"@, |a: AssetRecord| a.url@, buf_present, cap, r, old(err)@, final(err)@),
{
    match lookup(assets, err, asset, "asset") {
        Ok(a) => write_str_field(err, a.url.as_str(), buf_present, cap as u64),
        Err(code) => str_failed(code),
    }
}

/// The asset's creation time, Unix milliseconds (UTC).
pub fn nominal_asset_created_at(assets: &Registry<AssetRecord>, err: &mut LastError, asset: i32, out_present: bool) -> (r: Result<i64, i32>)
    ensures
        value_getter(assets@, asset, "asset"@, |a: AssetRecord| a.created_at_ms, out_present, "out_millis must not be null"@, r, old(err)@, final(err)@),
{
    match lookup(assets, err, asset, "asset") {
        Ok(a) => {
            if !out_present {
                proof { reveal_strlit("out_millis must not be null"); }
                return Err(fail_null(err, "out_millis must not be null"));
            }
            Ok(a.created_at_ms)
        },
        Err(code) => Err(code),
    }
}

/// The number of properties on the asset.
pub fn nominal_asset_property_count(assets: &Registry<AssetRecord>, err: &mut LastError, asset: i32, out_present: bool) -> (r: Result<u32, i32>)
    ensures
        count_getter(assets@, asset, "asset"@, |a: AssetRecord| a.properties@.len(), out_present, r, old(err)@, final(err)@),
{
    match lookup(assets, err, asset, "asset") {
        Ok(a) => write_count(err, a.properties.len(), out_present),
        Err(code) => Err(code),
    }
}

/// Writes the key of the property at `index` (0-based, sorted-key order).
pub fn nominal_asset_property_key_at(assets: &Registry<AssetRecord>, err: &mut LastError, asset: i32, index: i32, buf_present: bool, cap: u32) -> (r: StrOut)
    ensures
        indexed_str_getter(assets@, asset, "asset"@, |a: AssetRecord| prop_keys(a.properties@), index, buf_present, cap, r, old(err)@, final(err)@),
{
    match lookup(assets, err, asset, "asset") {
        Ok(a) => write_property_key_at(err, &a.properties, index, buf_present, cap),
        Err(code) => str_failed(code),
    }
}

/// Writes the value of the property at `index` (0-based, sorted-key order).
pub fn nominal_asset_property_value_at(assets: &Registry<AssetRecord>, err: &mut LastError, asset: i32, index: i32, buf_present: bool, cap: u32) -> (r: StrOut)
    ensures
        indexed_str_getter(assets@, asset, "asset"@, |a: AssetRecord| prop_values(a.properties@), index, buf_present, cap, r, old(err)@, final(err)@),
{
    match lookup(assets, err, asset, "asset") {
        Ok(a) => write_property_value_at(err, &a.properties, index, buf_present, cap),
        Err(code) => str_failed(code),
    }
}

/// The number of labels on the asset.
pub fn nominal_asset_label_count(assets: &Registry<AssetRecord>, err: &mut LastError, asset: i32, out_present: bool) -> (r: Result<u32, i32>)
    ensures
        count_getter(assets@, asset, "asset"@, |a: AssetRecord| a.labels@.len(), out_present, r, old(err)@, final(err)@),
{
    match lookup(assets, err, asset, "asset") {
        Ok(a) => write_count(err, a.labels.len(), out_present),
        Err(code) => Err(code),
    }
}

/// Writes the label at `index` (0-based).
pub fn nominal_asset_label_at(assets: &Registry<AssetRecord>, err: &mut LastError, asset: i32, index: i32, buf_present: bool, cap: u32) -> (r: StrOut)
    ensures
        indexed_str_getter(assets@, asset, "asset"@, |a: AssetRecord| strings_view(a.labels@), index, buf_present, cap, r, old(err)@, final(err)@),
{
    match lookup(assets, err, asset, "asset") {
        Ok(a) => write_item_at(err, &a.labels, index, buf_present, cap),
        Err(code) => str_failed(code),
    }
}

/// The number of data sources attached to the asset.
pub fn nominal_asset_data_source_count(assets: &Registry<AssetRecord>, err: &mut LastError, asset: i32, out_present: bool) -> (r: Result<u32, i32>)
    ensures
        count_getter(assets@, asset, "asset"@, |a: AssetRecord| a.data_sources@.len(), out_present, r, old(err)@, final(err)@),
{
    match lookup(assets, err, asset, "asset") {
        Ok(a) => write_count(err, a.data_sources.len(), out_present),
        Err(code) => Err(code),
    }
}

/// Writes the scope name of the data source at `index` (0-based,
/// sorted-name order).
pub fn nominal_asset_data_source_name_at(assets: &Registry<AssetRecord>, err: &mut LastError, asset: i32, index: i32, buf_present: bool, cap: u32) -> (r: StrOut)
    ensures
        indexed_str_getter(assets@, asset, "asset"@, |a: AssetRecord| keys_of(a.data_sources@), index, buf_present, cap, r, old(err)@, final(err)@),
{
    match lookup(assets, err, asset, "asset") {
        Ok(a) => write_source_name_at(err, &a.data_sources, index, buf_present, cap),
        Err(code) => str_failed(code),
    }
}

/// Writes the RID of the data source at `index` (0-based, sorted-name
/// order).
pub fn nominal_asset_data_source_rid_at(assets: &Registry<AssetRecord>, err: &mut LastError, asset: i32, index: i32, buf_present: bool, cap: u32) -> (r: StrOut)
    ensures
        indexed_str_getter(assets@, asset, "asset"@, |a: AssetRecord| source_rids(a.data_sources@), index, buf_present, cap, r, old(err)@, final(err)@),
{
    match lookup(assets, err, asset, "asset") {
        Ok(a) => write_source_rid_at(err, &a.data_sources, index, buf_present, cap),
        Err(code) => str_failed(code),
    }
}

/// The kind of the data source at `index` (0-based, sorted-name order), as
/// a [`NominalDataSourceType`] number.
pub fn nominal_asset_data_source_type_at(assets: &Registry<AssetRecord>, err: &mut LastError, asset: i32, index: i32, out_present: bool) -> (r: Result<i32, i32>)
    ensures
        match lookup_step(assets@, asset, "asset"@) {
            Ok(a) => source_type_spec(a.data_sources@, index, out_present, r, old(err)@, final(err)@),
            Err(f) => r matches Err(c) && failed_with(c, final(err)@, f),
        },
{
    match lookup(assets, err, asset, "asset") {
        Ok(a) => source_type_at(err, &a.data_sources, index, out_present),
        Err(code) => Err(code),
    }
}

} // verus!
