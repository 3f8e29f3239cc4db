//! What each staging call does to the staged options, and what the staged
//! run create sends: every setter changes only its own option, to the value
//! its argument gives.

use vstd::prelude::*;

use crate::ingest::{
    archive_step, custom_step, epoch_step, iso_step, prefix_step, time_unit_value, TabularFields, TimestampView,
};
use crate::laws::{given_text, present_text, text_of};
use crate::run::{
    run_asset_step, run_commit_step, run_description_step, run_end_step, run_label_step, RunCreateFields, RunCreateParams,
};
use crate::staging::{
    create_delimiter_step, create_description_step, create_label_step, update_description_step, update_end_step,
    update_label_step, update_name_step, update_start_step, CreateFields, UpdateFields,
};
use crate::time::MillisArg;
use crate::workbook::{scope_asset_step, scope_run_step, title_step, wb_description_step, wb_label_step, WorkbookCreateFields};

verus! {

/// The labels staged so far on an update (none staged reads as no labels).
pub open spec fn labels_so_far(o: Option<Seq<Seq<char>>>) -> Seq<Seq<char>> {
    match o {
        Some(ls) => ls,
        None => Seq::empty(),
    }
}

/// Each update setter stages only its own field: the name (not empty), the
/// description, one more label (not empty) after those staged before, or
/// the rounded start or end time; every other field stays as it was.
pub proof fn lemma_update_setters_set_one_field(p: UpdateFields, arg: Option<Seq<u8>>, t: MillisArg)
    ensures
        update_name_step(p, arg) matches Ok(q) ==> present_text(arg) && text_of(arg).len() > 0 && q == (UpdateFields {
            name: Some(text_of(arg)),
            ..p
        }),
        update_description_step(p, arg) matches Ok(q) ==> present_text(arg) && q == (UpdateFields {
            description: Some(text_of(arg)),
            ..p
        }),
        update_label_step(p, arg) matches Ok(q) ==> present_text(arg) && text_of(arg).len() > 0 && q == (UpdateFields {
            labels: Some(labels_so_far(p.labels).push(text_of(arg))),
            ..p
        }),
        update_start_step(p, t) matches Ok(q) ==> (t.rounded is Some && q == (UpdateFields { start_ms: t.rounded, ..p })),
        update_end_step(p, t) matches Ok(q) ==> (t.rounded is Some && q == (UpdateFields { end_ms: t.rounded, ..p })),
{
}

/// Each create setter stages only its own field: the description read as
/// an optional string, one more label (not empty), or the channel delimiter
/// (not empty).
pub proof fn lemma_create_setters_set_one_field(p: CreateFields, arg: Option<Seq<u8>>)
    ensures
        create_description_step(p, arg) matches Ok(q) ==> (q == (CreateFields { description: given_text(arg), ..p })),
        create_label_step(p, arg) matches Ok(q) ==> present_text(arg) && text_of(arg).len() > 0 && q == (CreateFields {
            labels: p.labels.push(text_of(arg)),
            ..p
        }),
        create_delimiter_step(p, arg) matches Ok(q) ==> present_text(arg) && text_of(arg).len() > 0 && q == (CreateFields {
            channel_delimiter: Some(text_of(arg)),
            ..p
        }),
{
}

/// Each run-create setter stages only its own field: the description read
/// as an optional string, the rounded end time, one more label or one more
/// asset RID (neither empty).
pub proof fn lemma_run_create_setters_set_one_field(p: RunCreateFields, arg: Option<Seq<u8>>, t: MillisArg)
    ensures
        run_description_step(p, arg) matches Ok(q) ==> (q == (RunCreateFields { description: given_text(arg), ..p })),
        run_end_step(p, t) matches Ok(q) ==> (t.rounded is Some && q == (RunCreateFields { end_ms: t.rounded, ..p })),
        run_label_step(p, arg) matches Ok(q) ==> present_text(arg) && text_of(arg).len() > 0 && q == (RunCreateFields {
            labels: p.labels.push(text_of(arg)),
            ..p
        }),
        run_asset_step(p, arg) matches Ok(q) ==> present_text(arg) && text_of(arg).len() > 0 && q == (RunCreateFields {
            assets: p.assets.push(text_of(arg)),
            ..p
        }),
{
}

/// A staged run create sends what was staged: name, start, description and
/// end as staged, and labels, properties and linked assets when any were
/// staged.
pub proof fn lemma_run_commit_sends_staged<C>(
    clients: Map<i32, C>,
    stagings: Map<i32, RunCreateParams>,
    client: i32,
    staging: i32,
)
    requires
        clients.contains_key(client),
        stagings.contains_key(staging),
    ensures
        run_commit_step(clients, stagings, client, staging, true) matches Ok(q) && ({
            let p = stagings[staging]@;
            &&& q.name == p.name
            &&& q.start_ms == p.start_ms
            &&& q.description == p.description
            &&& q.end_ms == p.end_ms
            &&& (p.labels.len() == 0 <==> q.labels is None)
            &&& (p.labels.len() > 0 ==> q.labels == Some(p.labels))
            &&& (p.properties.len() == 0 <==> q.properties is None)
            &&& (p.properties.len() > 0 ==> q.properties == Some(p.properties))
            &&& (p.assets.len() == 0 <==> q.assets is None)
            &&& (p.assets.len() > 0 ==> q.assets == Some(p.assets))
        }),
{
}

/// Each timestamp setter stages the spec it names, over the column given,
/// and leaves every other option as it was: ISO 8601; epoch in the unit
/// whose number was passed; a custom format with its defaults (0 means
/// none). The prefix setter stages the (non-empty) prefix, the archive
/// setter the flag.
pub proof fn lemma_ingest_setters_set_one_option(
    p: TabularFields,
    column: Option<Seq<u8>>,
    format: Option<Seq<u8>>,
    unit: i32,
    default_year: i32,
    default_day_of_year: i32,
    is_archive: bool,
)
    ensures
        iso_step(p, column) matches Ok(q) ==> present_text(column) && q == (TabularFields {
            timestamp: Some(TimestampView::Iso8601 { column: text_of(column) }),
            ..p
        }),
        epoch_step(p, column, unit) matches Ok(q) ==> (present_text(column) && q.timestamp is Some && q.timestamp->0 is Epoch
            && q.timestamp->0->Epoch_column == text_of(column) && time_unit_value(q.timestamp->0->Epoch_unit) == unit
            && q == (TabularFields { timestamp: q.timestamp, ..p })),
        custom_step(p, column, format, default_year, default_day_of_year) matches Ok(q) ==> present_text(column)
            && present_text(format) && q == (TabularFields {
            timestamp: Some(
                TimestampView::Custom {
                    column: text_of(column),
                    format: text_of(format),
                    default_year: if default_year == 0 { None } else { Some(default_year) },
                    default_day_of_year: if default_day_of_year == 0 { None } else { Some(default_day_of_year) },
                },
            ),
            ..p
        }),
        prefix_step(p, column) matches Ok(q) ==> present_text(column) && text_of(column).len() > 0 && q == (TabularFields {
            channel_prefix: Some(text_of(column)),
            ..p
        }),
        archive_step(p, is_archive) == Ok::<TabularFields, (crate::error::NominalErrorCode, Seq<char>)>(
            (TabularFields { is_archive: Some(is_archive), ..p }),
        ),
{
}

/// Each workbook setter stages only its own field: the title (not empty),
/// the description, one more label, or one more scope RID of one kind,
/// refused while RIDs of the other kind are staged.
pub proof fn lemma_workbook_setters_set_one_field(p: WorkbookCreateFields, arg: Option<Seq<u8>>)
    ensures
        title_step(p, arg) matches Ok(q) ==> present_text(arg) && text_of(arg).len() > 0 && q == (WorkbookCreateFields {
            title: Some(text_of(arg)),
            ..p
        }),
        wb_description_step(p, arg) matches Ok(q) ==> present_text(arg) && q == (WorkbookCreateFields {
            description: Some(text_of(arg)),
            ..p
        }),
        wb_label_step(p, arg) matches Ok(q) ==> present_text(arg) && text_of(arg).len() > 0 && q == (WorkbookCreateFields {
            labels: p.labels.push(text_of(arg)),
            ..p
        }),
        scope_asset_step(p, arg) matches Ok(q) ==> (p.scope_runs.len() == 0 && present_text(arg) && text_of(arg).len() > 0
            && q == (WorkbookCreateFields { scope_assets: p.scope_assets.push(text_of(arg)), ..p })),
        scope_run_step(p, arg) matches Ok(q) ==> (p.scope_assets.len() == 0 && present_text(arg) && text_of(arg).len() > 0
            && q == (WorkbookCreateFields { scope_runs: p.scope_runs.push(text_of(arg)), ..p })),
        p.scope_runs.len() > 0 ==> scope_asset_step(p, arg) is Err,
        p.scope_assets.len() > 0 ==> scope_run_step(p, arg) is Err,
{
}

} // verus!
