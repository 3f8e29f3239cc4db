//! `nominal_video_*`: videos, their staged creates and updates, and their
//! fields.
//!
//! A video is created as a metadata shell; the media arrives by ingest.
//! Properties are kept in ascending key order, so `_key_at(i)` and
//! `_value_at(i)` always describe the same entry.

use vstd::prelude::*;

use crate::actions::{flat_create_action, flat_create_step, flat_update_action, flat_update_step, get_action, get_step, list_action, list_step, rid_action, rid_step};
use crate::client::ClientEntry;
use crate::error::{LastError, NominalErrorCode};
use crate::fields::{
    count_getter, fail_null, indexed_str_getter, indexed_str_spec, opt_str_getter, prop_keys, prop_values,
    str_failed, str_getter, value_getter, write_count, write_item_at, write_opt_string, write_property_key_at,
    write_property_value_at,
};
use crate::handles::{
    begin_post, edit_post, failed_with, free_handle, index_error, index_msg, invalid_handle_msg, lookup,
    lookup_step, outcome, Registry,
};
use crate::search::{catalog_search, catalog_search_step, SearchQuery};
use crate::sorted::{strings_view, SortedMap};
use crate::staging::{
    create_add_label, create_begin, create_begin_step, create_commit, create_commit_step, create_description_step,
    create_label_step, create_property_ok, create_set_description, create_set_property, opt_view, property_step,
    update_add_label, update_begin, update_begin_step, update_commit, update_commit_step, update_description_step,
    update_label_step, update_name_step, update_property_ok, update_set_description, update_set_name,
    update_set_property, flat_create_request, flat_create_request_of, flat_update_request, flat_update_request_of,
    CreateFields, CreateParams, CreateRequest, UpdateFields, UpdateParams, UpdateRequest,
};
use crate::strings::{arg_view, str_out_failed, str_field_spec, write_str_field, StrOut};

use crate::dataset::CatalogRecord;

verus! {

// ---------------------------------------------------------------------------
// Actions
// ---------------------------------------------------------------------------

/// Checks the creation of a video with a name and (optional, null or
/// empty = none) description, and yields the request.
pub fn nominal_video_create<C>(
    clients: &Registry<ClientEntry<C>>,
    err: &mut LastError,
    client: i32,
    name: Option<&[u8]>,
    description: Option<&[u8]>,
    out_present: bool,
) -> (r: Result<CreateRequest, i32>)
    ensures
        match flat_create_step(clients@, client, arg_view(name), arg_view(description), out_present, "out_video must not be null"@) {
            Ok(v) => (r matches Ok(req) && req@ == flat_create_request(v)) && final(err)@ == old(err)@,
            Err(f) => r matches Err(c) && failed_with(c, final(err)@, f),
        },
{
    proof { reveal_strlit("out_video must not be null"); }
    match flat_create_action(clients, err, client, name, description, out_present, "out_video must not be null") {
        Ok(v) => Ok(flat_create_request_of(v)),
        Err(c) => Err(c),
    }
}

/// Checks fetching the video with the given RID and yields the RID.
pub fn nominal_video_get<C>(clients: &Registry<ClientEntry<C>>, err: &mut LastError, client: i32, rid: Option<&[u8]>, out_present: bool) -> (r: Result<String, i32>)
    ensures
        outcome(get_step(clients@, client, arg_view(rid), out_present, "out_video must not be null"@), r, old(err)@, final(err)@),
{
    proof { reveal_strlit("out_video must not be null"); }
    get_action(clients, err, client, rid, out_present, "out_video must not be null")
}

/// Checks listing all videos.
pub fn nominal_video_list<C>(clients: &Registry<ClientEntry<C>>, err: &mut LastError, client: i32, outs_present: bool) -> (r: Result<(), i32>)
    ensures
        outcome(list_step(clients@, client, outs_present), r, old(err)@, final(err)@),
{
    list_action(clients, err, client, outs_present)
}

/// Checks a search of videos and yields its filters: text (fuzzy match on
/// name and description), label, and property key plus value (both or
/// neither), each optional and combined with AND.
pub fn nominal_video_search<C>(
    clients: &Registry<ClientEntry<C>>,
    err: &mut LastError,
    client: i32,
    search_text: Option<&[u8]>,
    label: Option<&[u8]>,
    property_key: Option<&[u8]>,
    property_value: Option<&[u8]>,
    outs_present: bool,
) -> (r: Result<SearchQuery, i32>)
    ensures
        outcome(
            catalog_search_step(
                clients@,
                client,
                arg_view(search_text),
                arg_view(label),
                arg_view(property_key),
                arg_view(property_value),
                outs_present,
            ),
            r,
            old(err)@,
            final(err)@,
        ),
{
    catalog_search(clients, err, client, search_text, label, property_key, property_value, outs_present)
}

/// Checks an update of a video's name and/or description (null or empty
/// leaves a field unchanged) and yields the RID and request.
pub fn nominal_video_update<C>(
    clients: &Registry<ClientEntry<C>>,
    err: &mut LastError,
    client: i32,
    rid: Option<&[u8]>,
    name: Option<&[u8]>,
    description: Option<&[u8]>,
    out_present: bool,
) -> (r: Result<(String, UpdateRequest), i32>)
    ensures
        match flat_update_step(clients@, client, arg_view(rid), arg_view(name), arg_view(description), out_present, "out_video must not be null"@) {
            Ok(v) => (r matches Ok(x) && (x.0@, x.1@) == flat_update_request(v)) && final(err)@ == old(err)@,
            Err(f) => r matches Err(c) && failed_with(c, final(err)@, f),
        },
{
    proof { reveal_strlit("out_video must not be null"); }
    match flat_update_action(clients, err, client, rid, name, description, out_present, "out_video must not be null") {
        Ok(v) => Ok(flat_update_request_of(v)),
        Err(c) => Err(c),
    }
}

/// Checks archiving a video (hidden from the UI, not deleted).
pub fn nominal_video_archive<C>(clients: &Registry<ClientEntry<C>>, err: &mut LastError, client: i32, rid: Option<&[u8]>) -> (r: Result<String, i32>)
    ensures
        outcome(rid_step(clients@, client, arg_view(rid)), r, old(err)@, final(err)@),
{
    rid_action(clients, err, client, rid)
}

/// Checks unarchiving a video.
pub fn nominal_video_unarchive<C>(clients: &Registry<ClientEntry<C>>, err: &mut LastError, client: i32, rid: Option<&[u8]>) -> (r: Result<String, i32>)
    ensures
        outcome(rid_step(clients@, client, arg_view(rid)), r, old(err)@, final(err)@),
{
    rid_action(clients, err, client, rid)
}

/// Frees a video handle. Freeing twice returns an error.
pub fn nominal_video_free(videos: &mut Registry<CatalogRecord>, err: &mut LastError, video: i32) -> (r: i32)
    ensures
        final(videos)@ == old(videos)@.remove(video),
        final(videos).next_handle() == old(videos).next_handle(),
        old(videos)@.contains_key(video) ==> r == 0 && final(err)@ == old(err)@,
        !old(videos)@.contains_key(video) ==> failed_with(
            r,
            final(err)@,
            (NominalErrorCode::InvalidHandle, invalid_handle_msg("video"@, video)),
        ),
{
    free_handle(videos, err, video, "video")
}

// ---------------------------------------------------------------------------
// Staged create
// ---------------------------------------------------------------------------

/// Starts staging a video create with the (required, not empty) name.
pub fn nominal_video_create_begin(stagings: &mut Registry<CreateParams>, err: &mut LastError, name: Option<&[u8]>, out_present: bool) -> (r: Result<i32, i32>)
    ensures
        begin_post(old(stagings)@, final(stagings)@, old(stagings).next_handle(), final(stagings).next_handle(), create_begin_step(arg_view(name), out_present), r, old(err)@, final(err)@),
{
    create_begin(stagings, err, name, out_present)
}

/// Sets the description of a staged video create (null or empty clears it).
pub fn nominal_video_create_set_description(stagings: &mut Registry<CreateParams>, err: &mut LastError, staging: i32, description: Option<&[u8]>) -> (r: i32)
    ensures
        final(stagings).next_handle() == old(stagings).next_handle(),
        edit_post(old(stagings)@, final(stagings)@, staging, "video-create staging"@, |p: CreateFields| create_description_step(p, arg_view(description)), r, old(err)@, final(err)@),
{
    create_set_description(stagings, err, staging, "video-create staging", description)
}

/// Adds one label to a staged video create.
pub fn nominal_video_create_add_label(stagings: &mut Registry<CreateParams>, err: &mut LastError, staging: i32, label: Option<&[u8]>) -> (r: i32)
    ensures
        final(stagings).next_handle() == old(stagings).next_handle(),
        edit_post(old(stagings)@, final(stagings)@, staging, "video-create staging"@, |p: CreateFields| create_label_step(p, arg_view(label)), r, old(err)@, final(err)@),
{
    create_add_label(stagings, err, staging, "video-create staging", label)
}

/// Sets one property on a staged video create (the same key overwrites).
pub fn nominal_video_create_set_property(
    stagings: &mut Registry<CreateParams>,
    err: &mut LastError,
    staging: i32,
    key: Option<&[u8]>,
    value: Option<&[u8]>,
) -> (r: i32)
    ensures
        match lookup_step(old(stagings)@, staging, "video-create staging"@) {
            Err(f) => failed_with(r, final(err)@, f) && final(stagings)@ == old(stagings)@,
            Ok(p) => match property_step(arg_view(key), arg_view(value)) {
                Ok(kv) => {
                    &&& r == 0
                    &&& final(err)@ == old(err)@
                    &&& final(stagings)@.dom() == old(stagings)@.dom()
                    &&& create_property_ok(p@, final(stagings)@[staging]@, kv)
                    &&& forall|k: i32| k != staging && #[trigger] old(stagings)@.contains_key(k)
                        ==> final(stagings)@[k] == old(stagings)@[k]
                },
                Err(f) => failed_with(r, final(err)@, f) && final(stagings)@ == old(stagings)@,
            },
        },
{
    create_set_property(stagings, err, staging, "video-create staging", key, value)
}

/// Turns a staged video create into its request; the staging handle stays
/// valid.
pub fn nominal_video_create_commit<C>(
    clients: &Registry<ClientEntry<C>>,
    stagings: &Registry<CreateParams>,
    err: &mut LastError,
    client: i32,
    staging: i32,
    out_present: bool,
) -> (r: Result<CreateRequest, i32>)
    ensures
        outcome(
            create_commit_step(clients@, stagings@, client, staging, "video-create staging"@, out_present, "out_video must not be null"@),
            r,
            old(err)@,
            final(err)@,
        ),
{
    proof { reveal_strlit("out_video must not be null"); }
    create_commit(clients, stagings, err, client, staging, "video-create staging", out_present, "out_video must not be null")
}

/// Frees a video-create staging handle. Freeing twice returns an error.
pub fn nominal_video_create_free(stagings: &mut Registry<CreateParams>, err: &mut LastError, staging: i32) -> (r: i32)
    ensures
        final(stagings)@ == old(stagings)@.remove(staging),
        final(stagings).next_handle() == old(stagings).next_handle(),
        old(stagings)@.contains_key(staging) ==> r == 0 && final(err)@ == old(err)@,
        !old(stagings)@.contains_key(staging) ==> failed_with(
            r,
            final(err)@,
            (NominalErrorCode::InvalidHandle, invalid_handle_msg("video-create staging"@, staging)),
        ),
{
    free_handle(stagings, err, staging, "video-create staging")
}

// ---------------------------------------------------------------------------
// Staged update
// ---------------------------------------------------------------------------

/// Starts staging a video update; only the fields set on it change.
pub fn nominal_video_update_begin(stagings: &mut Registry<UpdateParams>, err: &mut LastError, out_present: bool) -> (r: Result<i32, i32>)
    ensures
        begin_post(old(stagings)@, final(stagings)@, old(stagings).next_handle(), final(stagings).next_handle(), update_begin_step(out_present), r, old(err)@, final(err)@),
{
    update_begin(stagings, err, out_present)
}

/// Stages a new (non-empty) name.
pub fn nominal_video_update_set_name(stagings: &mut Registry<UpdateParams>, err: &mut LastError, staging: i32, name: Option<&[u8]>) -> (r: i32)
    ensures
        final(stagings).next_handle() == old(stagings).next_handle(),
        edit_post(old(stagings)@, final(stagings)@, staging, "video-update staging"@, |p: UpdateFields| update_name_step(p, arg_view(name)), r, old(err)@, final(err)@),
{
    update_set_name(stagings, err, staging, "video-update staging", name)
}

/// Stages a new description (empty clears the description).
pub fn nominal_video_update_set_description(stagings: &mut Registry<UpdateParams>, err: &mut LastError, staging: i32, description: Option<&[u8]>) -> (r: i32)
    ensures
        final(stagings).next_handle() == old(stagings).next_handle(),
        edit_post(old(stagings)@, final(stagings)@, staging, "video-update staging"@, |p: UpdateFields| update_description_step(p, arg_view(description)), r, old(err)@, final(err)@),
{
    update_set_description(stagings, err, staging, "video-update staging", description)
}

/// Adds one label to the staged update. Touching labels at all replaces the
/// video's whole label set with the labels staged here.
pub fn nominal_video_update_add_label(stagings: &mut Registry<UpdateParams>, err: &mut LastError, staging: i32, label: Option<&[u8]>) -> (r: i32)
    ensures
        final(stagings).next_handle() == old(stagings).next_handle(),
        edit_post(old(stagings)@, final(stagings)@, staging, "video-update staging"@, |p: UpdateFields| update_label_step(p, arg_view(label)), r, old(err)@, final(err)@),
{
    update_add_label(stagings, err, staging, "video-update staging", label)
}

/// Sets one property on the staged update (the same key overwrites).
/// Touching properties at all replaces the video's whole property map.
pub fn nominal_video_update_set_property(
    stagings: &mut Registry<UpdateParams>,
    err: &mut LastError,
    staging: i32,
    key: Option<&[u8]>,
    value: Option<&[u8]>,
) -> (r: i32)
    ensures
        match lookup_step(old(stagings)@, staging, "video-update staging"@) {
            Err(f) => failed_with(r, final(err)@, f) && final(stagings)@ == old(stagings)@,
            Ok(p) => match property_step(arg_view(key), arg_view(value)) {
                Ok(kv) => {
                    &&& r == 0
                    &&& final(err)@ == old(err)@
                    &&& final(stagings)@.dom() == old(stagings)@.dom()
                    &&& update_property_ok(p@, final(stagings)@[staging]@, kv)
                    &&& forall|k: i32| k != staging && #[trigger] old(stagings)@.contains_key(k)
                        ==> final(stagings)@[k] == old(stagings)@[k]
                },
                Err(f) => failed_with(r, final(err)@, f) && final(stagings)@ == old(stagings)@,
            },
        },
{
    update_set_property(stagings, err, staging, "video-update staging", key, value)
}

/// Turns a staged video update into the RID to update and its request. At
/// least one field must have been staged; the staging handle stays valid.
pub fn nominal_video_update_commit<C>(
    clients: &Registry<ClientEntry<C>>,
    stagings: &Registry<UpdateParams>,
    err: &mut LastError,
    client: i32,
    rid: Option<&[u8]>,
    staging: i32,
    out_present: bool,
) -> (r: Result<(String, UpdateRequest), i32>)
    ensures
        match update_commit_step(clients@, stagings@, client, arg_view(rid), staging, "video-update staging"@, out_present, "out_video must not be null"@) {
            Ok(v) => (r matches Ok(req) && req.0@ == v.0 && req.1@ == v.1) && final(err)@ == old(err)@,
            Err(f) => r matches Err(c) && failed_with(c, final(err)@, f),
        },
{
    proof { reveal_strlit("out_video must not be null"); }
    update_commit(clients, stagings, err, client, rid, staging, "video-update staging", out_present, "out_video must not be null")
}

/// Frees a video-update staging handle. Freeing twice returns an error.
pub fn nominal_video_update_free(stagings: &mut Registry<UpdateParams>, err: &mut LastError, staging: i32) -> (r: i32)
    ensures
        final(stagings)@ == old(stagings)@.remove(staging),
        final(stagings).next_handle() == old(stagings).next_handle(),
        old(stagings)@.contains_key(staging) ==> r == 0 && final(err)@ == old(err)@,
        !old(stagings)@.contains_key(staging) ==> failed_with(
            r,
            final(err)@,
            (NominalErrorCode::InvalidHandle, invalid_handle_msg("video-update staging"@, staging)),
        ),
{
    free_handle(stagings, err, staging, "video-update staging")
}

// ---------------------------------------------------------------------------
// Field getters
// ---------------------------------------------------------------------------

/// Writes the video's RID into the caller buffer.
pub fn nominal_video_rid(videos: &Registry<CatalogRecord>, err: &mut LastError, video: i32, buf_present: bool, cap: u32) -> (r: StrOut)
    ensures
        str_getter(videos@, video, "video"@, |a: CatalogRecord| a.rid@, buf_present, cap, r, old(err)@, final(err)@),
{
    match lookup(videos, err, video, "video") {
        Ok(a) => write_str_field(err, a.rid.as_str(), buf_present, cap as u64),
        Err(code) => str_failed(code),
    }
}

/// Writes the video's name into the caller buffer.
pub fn nominal_video_name(videos: &Registry<CatalogRecord>, err: &mut LastError, video: i32, buf_present: bool, cap: u32) -> (r: StrOut)
    ensures
        str_getter(videos@, video, "video"@, |a: CatalogRecord| a.name@, buf_present, cap, r, old(err)@, final(err)@),
{
    match lookup(videos, err, video, "video") {
        Ok(a) => write_str_field(err, a.name.as_str(), buf_present, cap as u64),
        Err(code) => str_failed(code),
    }
}

/// Writes the video's description into the caller buffer and whether one is
/// set (an absent description reports 0 bytes needed).
pub fn nominal_video_description(videos: &Registry<CatalogRecord>, err: &mut LastError, video: i32, buf_present: bool, cap: u32) -> (r: StrOut)
    ensures
        opt_str_getter(videos@, video, "video"@, |a: CatalogRecord| opt_view(a.description), buf_present, cap, r, old(err)@, final(err)@),
{
    match lookup(videos, err, video, "video") {
        Ok(a) => write_opt_string(err, &a.description, buf_present, cap),
        Err(code) => str_failed(code),
    }
}

/// Writes the URL for viewing the video in the Nominal web app.
pub fn nominal_video_url(videos: &Registry<CatalogRecord>, err: &mut LastError, video: i32, buf_present: bool, cap: u32) -> (r: StrOut)
    ensures
        str_getter(videos@, video, "video"@, |a: CatalogRecord| a.url@, buf_present, cap, r, old(err)@, final(err)@),
{
    match lookup(videos, err, video, "video") {
        Ok(a) => write_str_field(err, a.url.as_str(), buf_present, cap as u64),
        Err(code) => str_failed(code),
    }
}

/// The video's creation time, Unix milliseconds (UTC).
pub fn nominal_video_created_at(videos: &Registry<CatalogRecord>, err: &mut LastError, video: i32, out_present: bool) -> (r: Result<i64, i32>)
    ensures
        value_getter(videos@, video, "video"@, |a: CatalogRecord| a.created_at_ms, out_present, "out_millis must not be null"@, r, old(err)@, final(err)@),
{
    match lookup(videos, err, video, "video") {
        Ok(a) => {
            if !out_present {
                proof { reveal_strlit("out_millis must not be null"); }
                return Err(fail_null(err, "out_millis must not be null"));
            }
            Ok(a.created_at_ms)
        },
        Err(code) => Err(code),
    }
}

/// The number of properties on the video.
pub fn nominal_video_property_count(videos: &Registry<CatalogRecord>, err: &mut LastError, video: i32, out_present: bool) -> (r: Result<u32, i32>)
    ensures
        count_getter(videos@, video, "video"@, |a: CatalogRecord| a.properties@.len(), out_present, r, old(err)@, final(err)@),
{
    match lookup(videos, err, video, "video") {
        Ok(a) => write_count(err, a.properties.len(), out_present),
        Err(code) => Err(code),
    }
}

/// Writes the key of the property at `index` (0-based, sorted-key order).
pub fn nominal_video_property_key_at(videos: &Registry<CatalogRecord>, err: &mut LastError, video: i32, index: i32, buf_present: bool, cap: u32) -> (r: StrOut)
    ensures
        indexed_str_getter(videos@, video, "video"@, |a: CatalogRecord| prop_keys(a.properties@), index, buf_present, cap, r, old(err)@, final(err)@),
{
    match lookup(videos, err, video, "video") {
        Ok(a) => write_property_key_at(err, &a.properties, index, buf_present, cap),
        Err(code) => str_failed(code),
    }
}

/// Writes the value of the property at `index` (0-based, sorted-key order).
pub fn nominal_video_property_value_at(videos: &Registry<CatalogRecord>, err: &mut LastError, video: i32, index: i32, buf_present: bool, cap: u32) -> (r: StrOut)
    ensures
        indexed_str_getter(videos@, video, "video"@, |a: CatalogRecord| prop_values(a.properties@), index, buf_present, cap, r, old(err)@, final(err)@),
{
    match lookup(videos, err, video, "video") {
        Ok(a) => write_property_value_at(err, &a.properties, index, buf_present, cap),
        Err(code) => str_failed(code),
    }
}

/// The number of labels on the video.
pub fn nominal_video_label_count(videos: &Registry<CatalogRecord>, err: &mut LastError, video: i32, out_present: bool) -> (r: Result<u32, i32>)
    ensures
        count_getter(videos@, video, "video"@, |a: CatalogRecord| a.labels@.len(), out_present, r, old(err)@, final(err)@),
{
    match lookup(videos, err, video, "video") {
        Ok(a) => write_count(err, a.labels.len(), out_present),
        Err(code) => Err(code),
    }
}

/// Writes the label at `index` (0-based).
pub fn nominal_video_label_at(videos: &Registry<CatalogRecord>, err: &mut LastError, video: i32, index: i32, buf_present: bool, cap: u32) -> (r: StrOut)
    ensures
        indexed_str_getter(videos@, video, "video"@, |a: CatalogRecord| strings_view(a.labels@), index, buf_present, cap, r, old(err)@, final(err)@),
{
    match lookup(videos, err, video, "video") {
        Ok(a) => write_item_at(err, &a.labels, index, buf_present, cap),
        Err(code) => str_failed(code),
    }
}

} // verus!
