//! `nominal_workbook_*`: saved analysis views attached to assets or runs.
//!
//! A workbook is always created from a template, with its data scope (the
//! assets or the runs it visualizes) staged one RID at a time. A scope is
//! assets or runs, never both.

use vstd::prelude::*;

use crate::actions::{check_client, client_step, get_action, get_step, list_action, list_outs_msg, list_step, rid_action, rid_step};
use crate::client::ClientEntry;
use crate::error::{fail, LastError, NominalErrorCode};
use crate::fields::{
    count_getter, fail_null, indexed_str_getter, opt_str_getter, prop_keys, prop_values, str_failed, str_getter,
    value_getter, write_count, write_item_at, write_opt_string, write_property_key_at, write_property_value_at,
};
use crate::handles::{
    begin_post, begin_staged, edit_post, failed_with, free_handle, invalid_handle_msg, lookup, lookup_step, outcome,
    take_staged, Registry,
};
use crate::search::{base_filters, base_search_filters, read_search_args, search_args_step, FilterView, SearchFilter, SearchQuery};
use crate::sorted::{strings_view, SortedMap};
use crate::staging::{
    copy_opt, copy_strs, label_step, nonempty_seq, nonempty_step, opt_pairs_view, opt_strs_view, opt_view,
    property_step, props_set, read_nonempty_str, read_optional, read_property, read_required, request_labels,
    request_properties, required_step, optional_step,
};
use crate::strings::{arg_view, write_str_field, StrOut};
use crate::template::TemplateEntry;

verus! {

/// Whether a workbook's data scope is a set of assets or a set of runs.
#[derive(Debug, Clone, Copy, PartialEq, Eq, Structural)]
pub enum NominalWorkbookScopeType {
    Assets,
    Runs,
}

/// The number that stands for a scope type at the boundary.
pub open spec fn scope_type_value(t: NominalWorkbookScopeType) -> i32 {
    match t {
        NominalWorkbookScopeType::Assets => 0,
        NominalWorkbookScopeType::Runs => 1,
    }
}

impl NominalWorkbookScopeType {
    /// The number that stands for this scope type at the boundary.
    pub fn code(&self) -> (r: i32)
        ensures
            r == scope_type_value(*self),
    {
        match self {
            NominalWorkbookScopeType::Assets => 0,
            NominalWorkbookScopeType::Runs => 1,
        }
    }
}

/// A workbook as its getters report it.
#[derive(Debug)]
pub struct WorkbookRecord {
    pub rid: String,
    /// The workbook's title.
    pub name: String,
    pub description: Option<String>,
    /// Where the workbook is viewed in the Nominal web app.
    pub url: String,
    /// Unix milliseconds, UTC.
    pub created_at_ms: i64,
    pub scope_type: NominalWorkbookScopeType,
    /// Asset or run RIDs, as `scope_type` says.
    pub scope_rids: Vec<String>,
    pub properties: SortedMap<String>,
    pub labels: Vec<String>,
}

// ---------------------------------------------------------------------------
// Actions
// ---------------------------------------------------------------------------

/// Checks fetching the workbook with the given RID and yields the RID.
pub fn nominal_workbook_get<C>(clients: &Registry<ClientEntry<C>>, err: &mut LastError, client: i32, rid: Option<&[u8]>, out_present: bool) -> (r: Result<String, i32>)
    ensures
        outcome(get_step(clients@, client, arg_view(rid), out_present, "out_workbook must not be null"@), r, old(err)@, final(err)@),
{
    proof { reveal_strlit("out_workbook must not be null"); }
    get_action(clients, err, client, rid, out_present, "out_workbook must not be null")
}

/// Checks listing all workbooks.
pub fn nominal_workbook_list<C>(clients: &Registry<ClientEntry<C>>, err: &mut LastError, client: i32, outs_present: bool) -> (r: Result<(), i32>)
    ensures
        outcome(list_step(clients@, client, outs_present), r, old(err)@, final(err)@),
{
    list_action(clients, err, client, outs_present)
}

/// The workbook filters after the shared ones: attached asset, then
/// attached run.
pub open spec fn workbook_filters(base: Seq<FilterView>, asset_rid: Option<Seq<char>>, run_rid: Option<Seq<char>>) -> Seq<FilterView> {
    let with_asset = match asset_rid {
        Some(a) => base.push(FilterView::AssetRid(a)),
        None => base,
    };
    match run_rid {
        Some(r) => with_asset.push(FilterView::RunRid(r)),
        None => with_asset,
    }
}

/// A search of workbooks: the client, the four shared filter arguments, the
/// asset and run RIDs, both out-parameters, the shared filters, then the
/// attachment filters.
pub open spec fn workbook_search_step<C>(
    clients: Map<i32, C>,
    client: i32,
    text: Option<Seq<u8>>,
    label: Option<Seq<u8>>,
    key: Option<Seq<u8>>,
    value: Option<Seq<u8>>,
    asset_rid: Option<Seq<u8>>,
    run_rid: Option<Seq<u8>>,
    outs_present: bool,
) -> Result<Seq<FilterView>, (NominalErrorCode, Seq<char>)> {
    match client_step(clients, client) {
        Err(f) => Err(f),
        Ok(_) => match search_args_step(text, label, key, value) {
            Err(f) => Err(f),
            Ok(a) => match optional_step(asset_rid, "asset_rid"@) {
                Err(f) => Err(f),
                Ok(ar) => match optional_step(run_rid, "run_rid"@) {
                    Err(f) => Err(f),
                    Ok(rr) => if !outs_present {
                        Err((NominalErrorCode::NullArgument, list_outs_msg()))
                    } else {
                        match base_filters(a.0, a.1, a.2, a.3) {
                            Err(f) => Err(f),
                            Ok(base) => Ok(workbook_filters(base, ar, rr)),
                        }
                    },
                },
            },
        },
    }
}

/// Checks a search of workbooks and yields its filters: text (fuzzy match
/// on title and description), label, property key plus value (both or
/// neither), attached asset and attached run, each optional and combined
/// with AND.
pub fn nominal_workbook_search<C>(
    clients: &Registry<ClientEntry<C>>,
    err: &mut LastError,
    client: i32,
    search_text: Option<&[u8]>,
    label: Option<&[u8]>,
    property_key: Option<&[u8]>,
    property_value: Option<&[u8]>,
    asset_rid: Option<&[u8]>,
    run_rid: Option<&[u8]>,
    outs_present: bool,
) -> (r: Result<SearchQuery, i32>)
    ensures
        outcome(
            workbook_search_step(
                clients@,
                client,
                arg_view(search_text),
                arg_view(label),
                arg_view(property_key),
                arg_view(property_value),
                arg_view(asset_rid),
                arg_view(run_rid),
                outs_present,
            ),
            r,
            old(err)@,
            final(err)@,
        ),
{
    match check_client(clients, err, client) {
        Ok(_) => {},
        Err(c) => {
            return Err(c);
        },
    }
    let args = match read_search_args(err, search_text, label, property_key, property_value) {
        Ok(a) => a,
        Err(c) => {
            return Err(c);
        },
    };
    let asset_rid = match read_optional(err, asset_rid, "asset_rid") {
        Ok(a) => a,
        Err(c) => {
            return Err(c);
        },
    };
    let run_rid = match read_optional(err, run_rid, "run_rid") {
        Ok(a) => a,
        Err(c) => {
            return Err(c);
        },
    };
    if !outs_present {
        proof { reveal_strlit("out_list and out_count must not be null"); }
        return Err(fail_null(err, "out_list and out_count must not be null"));
    }
    let mut filters = match base_search_filters(err, args) {
        Ok(f) => f,
        Err(c) => {
            return Err(c);
        },
    };
    let ghost base = filters@.map_values(|f: SearchFilter| f@);
    let ghost ar = opt_view(asset_rid);
    let ghost rr = opt_view(run_rid);
    match asset_rid {
        Some(a) => filters.push(SearchFilter::AssetRid(a)),
        None => {},
    }
    let ghost with_asset = filters@.map_values(|f: SearchFilter| f@);
    proof {
        assert(with_asset =~= match ar {
            Some(a) => base.push(FilterView::AssetRid(a)),
            None => base,
        });
    }
    match run_rid {
        Some(r) => filters.push(SearchFilter::RunRid(r)),
        None => {},
    }
    proof {
        assert(filters@.map_values(|f: SearchFilter| f@) =~= workbook_filters(base, ar, rr));
    }
    Ok(SearchQuery { filters })
}

/// Checks archiving a workbook (hidden from the UI, not deleted).
pub fn nominal_workbook_archive<C>(clients: &Registry<ClientEntry<C>>, err: &mut LastError, client: i32, rid: Option<&[u8]>) -> (r: Result<String, i32>)
    ensures
        outcome(rid_step(clients@, client, arg_view(rid)), r, old(err)@, final(err)@),
{
    rid_action(clients, err, client, rid)
}

/// Checks unarchiving a workbook.
pub fn nominal_workbook_unarchive<C>(clients: &Registry<ClientEntry<C>>, err: &mut LastError, client: i32, rid: Option<&[u8]>) -> (r: Result<String, i32>)
    ensures
        outcome(rid_step(clients@, client, arg_view(rid)), r, old(err)@, final(err)@),
{
    rid_action(clients, err, client, rid)
}

/// Frees a workbook handle. Freeing twice returns an error.
pub fn nominal_workbook_free(workbooks: &mut Registry<WorkbookRecord>, err: &mut LastError, workbook: i32) -> (r: i32)
    ensures
        final(workbooks)@ == old(workbooks)@.remove(workbook),
        final(workbooks).next_handle() == old(workbooks).next_handle(),
        old(workbooks)@.contains_key(workbook) ==> r == 0 && final(err)@ == old(err)@,
        !old(workbooks)@.contains_key(workbook) ==> failed_with(
            r,
            final(err)@,
            (NominalErrorCode::InvalidHandle, invalid_handle_msg("workbook"@, workbook)),
        ),
{
    free_handle(workbooks, err, workbook, "workbook")
}

// ---------------------------------------------------------------------------
// Staged create from a template
// ---------------------------------------------------------------------------

/// A staged workbook create, as the spec sees it.
pub struct WorkbookCreateFields {
    pub title: Option<Seq<char>>,
    pub description: Option<Seq<char>>,
    pub labels: Seq<Seq<char>>,
    pub properties: Seq<(Seq<char>, Seq<char>)>,
    pub scope_assets: Seq<Seq<char>>,
    pub scope_runs: Seq<Seq<char>>,
}

/// Accumulated fields for a workbook create. At most one of the two scope
/// lists is non-empty; the add calls keep it so.
#[derive(Debug)]
pub struct WorkbookCreateParams {
    title: Option<String>,
    description: Option<String>,
    labels: Vec<String>,
    properties: SortedMap<String>,
    scope_assets: Vec<String>,
    scope_runs: Vec<String>,
}

impl View for WorkbookCreateParams {
    type V = WorkbookCreateFields;

    closed spec fn view(&self) -> WorkbookCreateFields {
        WorkbookCreateFields {
            title: opt_view(self.title),
            description: opt_view(self.description),
            labels: strings_view(self.labels@),
            properties: self.properties@,
            scope_assets: strings_view(self.scope_assets@),
            scope_runs: strings_view(self.scope_runs@),
        }
    }
}

/// A workbook's scope is assets or runs, not both.
pub open spec fn scope_exclusive(p: WorkbookCreateFields) -> bool {
    p.scope_assets.len() == 0 || p.scope_runs.len() == 0
}

/// Starting a staged workbook create.
pub open spec fn workbook_begin_step(out_present: bool) -> Result<WorkbookCreateFields, (NominalErrorCode, Seq<char>)> {
    if out_present {
        Ok(
            WorkbookCreateFields {
                title: None,
                description: None,
                labels: Seq::empty(),
                properties: Seq::empty(),
                scope_assets: Seq::empty(),
                scope_runs: Seq::empty(),
            },
        )
    } else {
        Err((NominalErrorCode::NullArgument, "out_staging must not be null"@))
    }
}

/// Starts staging a workbook create; title and description default to the
/// template's.
pub fn nominal_workbook_create_begin(stagings: &mut Registry<WorkbookCreateParams>, err: &mut LastError, out_present: bool) -> (r: Result<i32, i32>)
    ensures
        begin_post(old(stagings)@, final(stagings)@, old(stagings).next_handle(), final(stagings).next_handle(), workbook_begin_step(out_present), r, old(err)@, final(err)@),
{
    if !out_present {
        proof { reveal_strlit("out_staging must not be null"); }
        return Err(fail_null(err, "out_staging must not be null"));
    }
    let params = WorkbookCreateParams {
        title: None,
        description: None,
        labels: Vec::new(),
        properties: SortedMap::new(),
        scope_assets: Vec::new(),
        scope_runs: Vec::new(),
    };
    proof {
        assert(params@.labels =~= Seq::<Seq<char>>::empty());
        assert(params@.scope_assets =~= Seq::<Seq<char>>::empty());
        assert(params@.scope_runs =~= Seq::<Seq<char>>::empty());
    }
    begin_staged(stagings, err, params)
}

/// Setting the title (overrides the template's).
pub open spec fn title_step(p: WorkbookCreateFields, arg: Option<Seq<u8>>) -> Result<WorkbookCreateFields, (NominalErrorCode, Seq<char>)> {
    match nonempty_step(arg, "title"@) {
        Ok(t) => Ok(WorkbookCreateFields { title: Some(t), ..p }),
        Err(f) => Err(f),
    }
}

/// Sets the workbook's (non-empty) title.
pub fn nominal_workbook_create_set_title(stagings: &mut Registry<WorkbookCreateParams>, err: &mut LastError, staging: i32, title: Option<&[u8]>) -> (r: i32)
    ensures
        final(stagings).next_handle() == old(stagings).next_handle(),
        edit_post(old(stagings)@, final(stagings)@, staging, "workbook-create staging"@, |p: WorkbookCreateFields| title_step(p, arg_view(title)), r, old(err)@, final(err)@),
{
    let mut p = match take_staged(stagings, err, staging, "workbook-create staging") {
        Ok(p) => p,
        Err(c) => {
            return c;
        },
    };
    match read_nonempty_str(err, title, "title") {
        Ok(t) => {
            p.title = Some(t);
            stagings.put_back(staging, p);
            0
        },
        Err(c) => {
            stagings.put_back(staging, p);
            proof {
                assert(stagings@ =~= old(stagings)@);
            }
            c
        },
    }
}

/// Setting the description (overrides the template's).
pub open spec fn wb_description_step(p: WorkbookCreateFields, arg: Option<Seq<u8>>) -> Result<WorkbookCreateFields, (NominalErrorCode, Seq<char>)> {
    match required_step(arg, "description"@) {
        Ok(d) => Ok(WorkbookCreateFields { description: Some(d), ..p }),
        Err(f) => Err(f),
    }
}

/// Sets the workbook's description.
pub fn nominal_workbook_create_set_description(stagings: &mut Registry<WorkbookCreateParams>, err: &mut LastError, staging: i32, description: Option<&[u8]>) -> (r: i32)
    ensures
        final(stagings).next_handle() == old(stagings).next_handle(),
        edit_post(old(stagings)@, final(stagings)@, staging, "workbook-create staging"@, |p: WorkbookCreateFields| wb_description_step(p, arg_view(description)), r, old(err)@, final(err)@),
{
    let mut p = match take_staged(stagings, err, staging, "workbook-create staging") {
        Ok(p) => p,
        Err(c) => {
            return c;
        },
    };
    match read_required(err, description, "description") {
        Ok(d) => {
            p.description = Some(d);
            stagings.put_back(staging, p);
            0
        },
        Err(c) => {
            stagings.put_back(staging, p);
            proof {
                assert(stagings@ =~= old(stagings)@);
            }
            c
        },
    }
}

/// Adding a label to a staged workbook create.
pub open spec fn wb_label_step(p: WorkbookCreateFields, arg: Option<Seq<u8>>) -> Result<WorkbookCreateFields, (NominalErrorCode, Seq<char>)> {
    match label_step(p.labels, arg) {
        Ok(ls) => Ok(WorkbookCreateFields { labels: ls, ..p }),
        Err(f) => Err(f),
    }
}

/// Adds one (non-empty) label to the staged create.
pub fn nominal_workbook_create_add_label(stagings: &mut Registry<WorkbookCreateParams>, err: &mut LastError, staging: i32, label: Option<&[u8]>) -> (r: i32)
    ensures
        final(stagings).next_handle() == old(stagings).next_handle(),
        edit_post(old(stagings)@, final(stagings)@, staging, "workbook-create staging"@, |p: WorkbookCreateFields| wb_label_step(p, arg_view(label)), r, old(err)@, final(err)@),
{
    let mut p = match take_staged(stagings, err, staging, "workbook-create staging") {
        Ok(p) => p,
        Err(c) => {
            return c;
        },
    };
    match read_nonempty_str(err, label, "label") {
        Ok(l) => {
            p.labels.push(l);
            proof {
                assert(p@.labels =~= old(stagings)@[staging]@.labels.push(l@));
            }
            stagings.put_back(staging, p);
            0
        },
        Err(c) => {
            stagings.put_back(staging, p);
            proof {
                assert(stagings@ =~= old(stagings)@);
            }
            c
        },
    }
}

/// Setting a property on a staged workbook create.
pub open spec fn wb_property_ok(p: WorkbookCreateFields, q: WorkbookCreateFields, kv: (Seq<char>, Seq<char>)) -> bool {
    &&& q.title == p.title
    &&& q.description == p.description
    &&& q.labels == p.labels
    &&& q.scope_assets == p.scope_assets
    &&& q.scope_runs == p.scope_runs
    &&& props_set(p.properties, q.properties, kv.0, kv.1)
}

/// Sets one property on the staged create (the same key overwrites).
pub fn nominal_workbook_create_set_property(
    stagings: &mut Registry<WorkbookCreateParams>,
    err: &mut LastError,
    staging: i32,
    key: Option<&[u8]>,
    value: Option<&[u8]>,
) -> (r: i32)
    ensures
        match lookup_step(old(stagings)@, staging, "workbook-create staging"@) {
            Err(f) => failed_with(r, final(err)@, f) && final(stagings)@ == old(stagings)@,
            Ok(p) => match property_step(arg_view(key), arg_view(value)) {
                Ok(kv) => {
                    &&& r == 0
                    &&& final(err)@ == old(err)@
                    &&& final(stagings)@.dom() == old(stagings)@.dom()
                    &&& wb_property_ok(p@, final(stagings)@[staging]@, kv)
                    &&& forall|k: i32| k != staging && #[trigger] old(stagings)@.contains_key(k)
                        ==> final(stagings)@[k] == old(stagings)@[k]
                },
                Err(f) => failed_with(r, final(err)@, f) && final(stagings)@ == old(stagings)@,
            },
        },
{
    let mut p = match take_staged(stagings, err, staging, "workbook-create staging") {
        Ok(p) => p,
        Err(c) => {
            return c;
        },
    };
    match read_property(err, key, value) {
        Ok(kv) => {
            p.properties.insert(kv.0, kv.1);
            stagings.put_back(staging, p);
            0
        },
        Err(c) => {
            stagings.put_back(staging, p);
            proof {
                assert(stagings@ =~= old(stagings)@);
            }
            c
        },
    }
}

/// Adding an asset to the data scope: refused once the scope holds runs.
pub open spec fn scope_asset_step(p: WorkbookCreateFields, arg: Option<Seq<u8>>) -> Result<WorkbookCreateFields, (NominalErrorCode, Seq<char>)> {
    match nonempty_step(arg, "asset_rid"@) {
        Err(f) => Err(f),
        Ok(a) => if p.scope_runs.len() != 0 {
            Err((NominalErrorCode::InvalidArgument, "scope is already runs — a workbook scope is assets or runs, not both"@))
        } else {
            Ok(WorkbookCreateFields { scope_assets: p.scope_assets.push(a), ..p })
        },
    }
}

/// Adds an asset RID to the data scope. Mutually exclusive with scope runs.
pub fn nominal_workbook_create_add_scope_asset(stagings: &mut Registry<WorkbookCreateParams>, err: &mut LastError, staging: i32, asset_rid: Option<&[u8]>) -> (r: i32)
    ensures
        final(stagings).next_handle() == old(stagings).next_handle(),
        edit_post(old(stagings)@, final(stagings)@, staging, "workbook-create staging"@, |p: WorkbookCreateFields| scope_asset_step(p, arg_view(asset_rid)), r, old(err)@, final(err)@),
{
    let mut p = match take_staged(stagings, err, staging, "workbook-create staging") {
        Ok(p) => p,
        Err(c) => {
            return c;
        },
    };
    let a = match read_nonempty_str(err, asset_rid, "asset_rid") {
        Ok(a) => a,
        Err(c) => {
            stagings.put_back(staging, p);
            proof {
                assert(stagings@ =~= old(stagings)@);
            }
            return c;
        },
    };
    if p.scope_runs.len() != 0 {
        stagings.put_back(staging, p);
        proof {
            assert(stagings@ =~= old(stagings)@);
        }
        proof { reveal_strlit("scope is already runs — a workbook scope is assets or runs, not both"); }
        return fail(
            err,
            NominalErrorCode::InvalidArgument,
            String::from_str("scope is already runs — a workbook scope is assets or runs, not both"),
        );
    }
    p.scope_assets.push(a);
    proof {
        assert(p@.scope_assets =~= old(stagings)@[staging]@.scope_assets.push(a@));
    }
    stagings.put_back(staging, p);
    0
}

/// Adding a run to the data scope: refused once the scope holds assets.
pub open spec fn scope_run_step(p: WorkbookCreateFields, arg: Option<Seq<u8>>) -> Result<WorkbookCreateFields, (NominalErrorCode, Seq<char>)> {
    match nonempty_step(arg, "run_rid"@) {
        Err(f) => Err(f),
        Ok(a) => if p.scope_assets.len() != 0 {
            Err((NominalErrorCode::InvalidArgument, "scope is already assets — a workbook scope is assets or runs, not both"@))
        } else {
            Ok(WorkbookCreateFields { scope_runs: p.scope_runs.push(a), ..p })
        },
    }
}

/// Adds a run RID to the data scope. Mutually exclusive with scope assets.
pub fn nominal_workbook_create_add_scope_run(stagings: &mut Registry<WorkbookCreateParams>, err: &mut LastError, staging: i32, run_rid: Option<&[u8]>) -> (r: i32)
    ensures
        final(stagings).next_handle() == old(stagings).next_handle(),
        edit_post(old(stagings)@, final(stagings)@, staging, "workbook-create staging"@, |p: WorkbookCreateFields| scope_run_step(p, arg_view(run_rid)), r, old(err)@, final(err)@),
{
    let mut p = match take_staged(stagings, err, staging, "workbook-create staging") {
        Ok(p) => p,
        Err(c) => {
            return c;
        },
    };
    let a = match read_nonempty_str(err, run_rid, "run_rid") {
        Ok(a) => a,
        Err(c) => {
            stagings.put_back(staging, p);
            proof {
                assert(stagings@ =~= old(stagings)@);
            }
            return c;
        },
    };
    if p.scope_assets.len() != 0 {
        stagings.put_back(staging, p);
        proof {
            assert(stagings@ =~= old(stagings)@);
        }
        proof { reveal_strlit("scope is already assets — a workbook scope is assets or runs, not both"); }
        return fail(
            err,
            NominalErrorCode::InvalidArgument,
            String::from_str("scope is already assets — a workbook scope is assets or runs, not both"),
        );
    }
    p.scope_runs.push(a);
    proof {
        assert(p@.scope_runs =~= old(stagings)@[staging]@.scope_runs.push(a@));
    }
    stagings.put_back(staging, p);
    0
}

/// Law: a staged workbook create never holds both scope assets and scope
/// runs. A new one holds neither, and adding to one kind of scope succeeds
/// only while the other kind is empty.
pub proof fn lemma_workbook_scope_exclusive(p: WorkbookCreateFields, arg: Option<Seq<u8>>, out_present: bool)
    ensures
        workbook_begin_step(out_present) matches Ok(q) ==> scope_exclusive(q),
        scope_exclusive(p) ==> (scope_asset_step(p, arg) matches Ok(q) ==> scope_exclusive(q)),
        scope_exclusive(p) ==> (scope_run_step(p, arg) matches Ok(q) ==> scope_exclusive(q)),
        scope_exclusive(p) ==> (title_step(p, arg) matches Ok(q) ==> scope_exclusive(q)),
        scope_exclusive(p) ==> (wb_description_step(p, arg) matches Ok(q) ==> scope_exclusive(q)),
        scope_exclusive(p) ==> (wb_label_step(p, arg) matches Ok(q) ==> scope_exclusive(q)),
        scope_exclusive(p) && p.scope_runs.len() != 0 ==> scope_asset_step(p, arg) is Err,
        scope_exclusive(p) && p.scope_assets.len() != 0 ==> scope_run_step(p, arg) is Err,
{
}

/// A workbook-create request: the data scope and the overrides.
#[derive(Debug)]
pub struct WorkbookCreateRequest {
    pub scope_type: NominalWorkbookScopeType,
    pub scope_rids: Vec<String>,
    pub title: Option<String>,
    pub description: Option<String>,
    pub labels: Option<Vec<String>>,
    pub properties: Option<Vec<(String, String)>>,
}

/// A workbook-create request, as the spec sees it.
pub struct WorkbookRequestView {
    pub scope_type: NominalWorkbookScopeType,
    pub scope_rids: Seq<Seq<char>>,
    pub title: Option<Seq<char>>,
    pub description: Option<Seq<char>>,
    pub labels: Option<Seq<Seq<char>>>,
    pub properties: Option<Seq<(Seq<char>, Seq<char>)>>,
}

impl View for WorkbookCreateRequest {
    type V = WorkbookRequestView;

    open spec fn view(&self) -> WorkbookRequestView {
        WorkbookRequestView {
            scope_type: self.scope_type,
            scope_rids: strings_view(self.scope_rids@),
            title: opt_view(self.title),
            description: opt_view(self.description),
            labels: opt_strs_view(self.labels),
            properties: opt_pairs_view(self.properties),
        }
    }
}

/// The request a staged workbook create turns into, or the failure when no
/// scope RID was staged. Assets are checked first.
pub open spec fn workbook_request_of(p: WorkbookCreateFields) -> Result<WorkbookRequestView, (NominalErrorCode, Seq<char>)> {
    let rest = |t: NominalWorkbookScopeType, rids: Seq<Seq<char>>|
        WorkbookRequestView {
            scope_type: t,
            scope_rids: rids,
            title: p.title,
            description: p.description,
            labels: nonempty_seq(p.labels),
            properties: nonempty_seq(p.properties),
        };
    if p.scope_assets.len() != 0 {
        Ok(rest(NominalWorkbookScopeType::Assets, p.scope_assets))
    } else if p.scope_runs.len() != 0 {
        Ok(rest(NominalWorkbookScopeType::Runs, p.scope_runs))
    } else {
        Err((NominalErrorCode::InvalidArgument, "no data scope staged: add at least one scope asset or run RID"@))
    }
}

/// Committing a staged workbook create: the client, the template, the
/// staging handle, the out-parameter, then the scope.
pub open spec fn workbook_commit_step<C, T>(
    clients: Map<i32, C>,
    templates: Map<i32, T>,
    stagings: Map<i32, WorkbookCreateParams>,
    client: i32,
    template: i32,
    staging: i32,
    out_present: bool,
) -> Result<WorkbookRequestView, (NominalErrorCode, Seq<char>)> {
    match client_step(clients, client) {
        Err(f) => Err(f),
        Ok(_) => match lookup_step(templates, template, "template"@) {
            Err(f) => Err(f),
            Ok(_) => match lookup_step(stagings, staging, "workbook-create staging"@) {
                Err(f) => Err(f),
                Ok(p) => if !out_present {
                    Err((NominalErrorCode::NullArgument, "out_workbook must not be null"@))
                } else {
                    workbook_request_of(p@)
                },
            },
        },
    }
}

/// Turns a staged workbook create into its request, to be created from the
/// given template. At least one scope RID must have been staged; the
/// staging handle stays valid.
pub fn nominal_workbook_create_commit<C, T>(
    clients: &Registry<ClientEntry<C>>,
    templates: &Registry<TemplateEntry<T>>,
    stagings: &Registry<WorkbookCreateParams>,
    err: &mut LastError,
    client: i32,
    template: i32,
    staging: i32,
    out_present: bool,
) -> (r: Result<WorkbookCreateRequest, i32>)
    ensures
        outcome(workbook_commit_step(clients@, templates@, stagings@, client, template, staging, out_present), r, old(err)@, final(err)@),
{
    match check_client(clients, err, client) {
        Ok(_) => {},
        Err(c) => {
            return Err(c);
        },
    }
    match lookup(templates, err, template, "template") {
        Ok(_) => {},
        Err(c) => {
            return Err(c);
        },
    }
    let p = match lookup(stagings, err, staging, "workbook-create staging") {
        Ok(p) => p,
        Err(c) => {
            return Err(c);
        },
    };
    if !out_present {
        proof { reveal_strlit("out_workbook must not be null"); }
        return Err(fail_null(err, "out_workbook must not be null"));
    }
    let (scope_type, scope_rids) = if p.scope_assets.len() != 0 {
        (NominalWorkbookScopeType::Assets, copy_strs(&p.scope_assets))
    } else if p.scope_runs.len() != 0 {
        (NominalWorkbookScopeType::Runs, copy_strs(&p.scope_runs))
    } else {
        proof { reveal_strlit("no data scope staged: add at least one scope asset or run RID"); }
        return Err(
            fail(
                err,
                NominalErrorCode::InvalidArgument,
                String::from_str("no data scope staged: add at least one scope asset or run RID"),
            ),
        );
    };
    Ok(
        WorkbookCreateRequest {
            scope_type,
            scope_rids,
            title: copy_opt(&p.title),
            description: copy_opt(&p.description),
            labels: request_labels(&p.labels),
            properties: request_properties(&p.properties),
        },
    )
}

/// Frees a workbook-create staging handle. Freeing twice returns an error.
pub fn nominal_workbook_create_free(stagings: &mut Registry<WorkbookCreateParams>, err: &mut LastError, staging: i32) -> (r: i32)
    ensures
        final(stagings)@ == old(stagings)@.remove(staging),
        final(stagings).next_handle() == old(stagings).next_handle(),
        old(stagings)@.contains_key(staging) ==> r == 0 && final(err)@ == old(err)@,
        !old(stagings)@.contains_key(staging) ==> failed_with(
            r,
            final(err)@,
            (NominalErrorCode::InvalidHandle, invalid_handle_msg("workbook-create staging"@, staging)),
        ),
{
    free_handle(stagings, err, staging, "workbook-create staging")
}

// ---------------------------------------------------------------------------
// Field getters
// ---------------------------------------------------------------------------

/// Writes the workbook's RID into the caller buffer.
pub fn nominal_workbook_rid(workbooks: &Registry<WorkbookRecord>, err: &mut LastError, workbook: i32, buf_present: bool, cap: u32) -> (r: StrOut)
    ensures
        str_getter(workbooks@, workbook, "workbook"@, |a: WorkbookRecord| a.rid@, buf_present, cap, r, old(err)@, final(err)@),
{
    match lookup(workbooks, err, workbook, "workbook") {
        Ok(a) => write_str_field(err, a.rid.as_str(), buf_present, cap as u64),
        Err(code) => str_failed(code),
    }
}

/// Writes the workbook's name into the caller buffer.
pub fn nominal_workbook_name(workbooks: &Registry<WorkbookRecord>, err: &mut LastError, workbook: i32, buf_present: bool, cap: u32) -> (r: StrOut)
    ensures
        str_getter(workbooks@, workbook, "workbook"@, |a: WorkbookRecord| a.name@, buf_present, cap, r, old(err)@, final(err)@),
{
    match lookup(workbooks, err, workbook, "workbook") {
        Ok(a) => write_str_field(err, a.name.as_str(), buf_present, cap as u64),
        Err(code) => str_failed(code),
    }
}

/// Writes the workbook's description into the caller buffer and whether one is
/// set (an absent description reports 0 bytes needed).
pub fn nominal_workbook_description(workbooks: &Registry<WorkbookRecord>, err: &mut LastError, workbook: i32, buf_present: bool, cap: u32) -> (r: StrOut)
    ensures
        opt_str_getter(workbooks@, workbook, "workbook"@, |a: WorkbookRecord| opt_view(a.description), buf_present, cap, r, old(err)@, final(err)@),
{
    match lookup(workbooks, err, workbook, "workbook") {
        Ok(a) => write_opt_string(err, &a.description, buf_present, cap),
        Err(code) => str_failed(code),
    }
}

/// Writes the URL for viewing the workbook in the Nominal web app.
pub fn nominal_workbook_url(workbooks: &Registry<WorkbookRecord>, err: &mut LastError, workbook: i32, buf_present: bool, cap: u32) -> (r: StrOut)
    ensures
        str_getter(workbooks@, workbook, "workbook"@, |a: WorkbookRecord| a.url@, buf_present, cap, r, old(err)@, final(err)@),
{
    match lookup(workbooks, err, workbook, "workbook") {
        Ok(a) => write_str_field(err, a.url.as_str(), buf_present, cap as u64),
        Err(code) => str_failed(code),
    }
}

/// The workbook's creation time, Unix milliseconds (UTC).
pub fn nominal_workbook_created_at(workbooks: &Registry<WorkbookRecord>, err: &mut LastError, workbook: i32, out_present: bool) -> (r: Result<i64, i32>)
    ensures
        value_getter(workbooks@, workbook, "workbook"@, |a: WorkbookRecord| a.created_at_ms, out_present, "out_millis must not be null"@, r, old(err)@, final(err)@),
{
    match lookup(workbooks, err, workbook, "workbook") {
        Ok(a) => {
            if !out_present {
                proof { reveal_strlit("out_millis must not be null"); }
                return Err(fail_null(err, "out_millis must not be null"));
            }
            Ok(a.created_at_ms)
        },
        Err(code) => Err(code),
    }
}

/// The number of properties on the workbook.
pub fn nominal_workbook_property_count(workbooks: &Registry<WorkbookRecord>, err: &mut LastError, workbook: i32, out_present: bool) -> (r: Result<u32, i32>)
    ensures
        count_getter(workbooks@, workbook, "workbook"@, |a: WorkbookRecord| a.properties@.len(), out_present, r, old(err)@, final(err)@),
{
    match lookup(workbooks, err, workbook, "workbook") {
        Ok(a) => write_count(err, a.properties.len(), out_present),
        Err(code) => Err(code),
    }
}

/// Writes the key of the property at `index` (0-based, sorted-key order).
pub fn nominal_workbook_property_key_at(workbooks: &Registry<WorkbookRecord>, err: &mut LastError, workbook: i32, index: i32, buf_present: bool, cap: u32) -> (r: StrOut)
    ensures
        indexed_str_getter(workbooks@, workbook, "workbook"@, |a: WorkbookRecord| prop_keys(a.properties@), index, buf_present, cap, r, old(err)@, final(err)@),
{
    match lookup(workbooks, err, workbook, "workbook") {
        Ok(a) => write_property_key_at(err, &a.properties, index, buf_present, cap),
        Err(code) => str_failed(code),
    }
}

/// Writes the value of the property at `index` (0-based, sorted-key order).
pub fn nominal_workbook_property_value_at(workbooks: &Registry<WorkbookRecord>, err: &mut LastError, workbook: i32, index: i32, buf_present: bool, cap: u32) -> (r: StrOut)
    ensures
        indexed_str_getter(workbooks@, workbook, "workbook"@, |a: WorkbookRecord| prop_values(a.properties@), index, buf_present, cap, r, old(err)@, final(err)@),
{
    match lookup(workbooks, err, workbook, "workbook") {
        Ok(a) => write_property_value_at(err, &a.properties, index, buf_present, cap),
        Err(code) => str_failed(code),
    }
}

/// The number of labels on the workbook.
pub fn nominal_workbook_label_count(workbooks: &Registry<WorkbookRecord>, err: &mut LastError, workbook: i32, out_present: bool) -> (r: Result<u32, i32>)
    ensures
        count_getter(workbooks@, workbook, "workbook"@, |a: WorkbookRecord| a.labels@.len(), out_present, r, old(err)@, final(err)@),
{
    match lookup(workbooks, err, workbook, "workbook") {
        Ok(a) => write_count(err, a.labels.len(), out_present),
        Err(code) => Err(code),
    }
}

/// Writes the label at `index` (0-based).
pub fn nominal_workbook_label_at(workbooks: &Registry<WorkbookRecord>, err: &mut LastError, workbook: i32, index: i32, buf_present: bool, cap: u32) -> (r: StrOut)
    ensures
        indexed_str_getter(workbooks@, workbook, "workbook"@, |a: WorkbookRecord| strings_view(a.labels@), index, buf_present, cap, r, old(err)@, final(err)@),
{
    match lookup(workbooks, err, workbook, "workbook") {
        Ok(a) => write_item_at(err, &a.labels, index, buf_present, cap),
        Err(code) => str_failed(code),
    }
}

/// The workbook's scope type, as its boundary number (assets 0, runs 1).
pub fn nominal_workbook_scope_type(workbooks: &Registry<WorkbookRecord>, err: &mut LastError, workbook: i32, out_present: bool) -> (r: Result<i32, i32>)
    ensures
        value_getter(workbooks@, workbook, "workbook"@, |w: WorkbookRecord| scope_type_value(w.scope_type), out_present, "out_type must not be null"@, r, old(err)@, final(err)@),
{
    match lookup(workbooks, err, workbook, "workbook") {
        Ok(w) => {
            if !out_present {
                proof { reveal_strlit("out_type must not be null"); }
                return Err(fail_null(err, "out_type must not be null"));
            }
            Ok(w.scope_type.code())
        },
        Err(code) => Err(code),
    }
}

/// The number of RIDs in the workbook's data scope.
pub fn nominal_workbook_scope_rid_count(workbooks: &Registry<WorkbookRecord>, err: &mut LastError, workbook: i32, out_present: bool) -> (r: Result<u32, i32>)
    ensures
        count_getter(workbooks@, workbook, "workbook"@, |w: WorkbookRecord| w.scope_rids@.len(), out_present, r, old(err)@, final(err)@),
{
    match lookup(workbooks, err, workbook, "workbook") {
        Ok(w) => write_count(err, w.scope_rids.len(), out_present),
        Err(code) => Err(code),
    }
}

/// Writes the scope RID at `index` (0-based); the scope type says whether
/// it names an asset or a run.
pub fn nominal_workbook_scope_rid_at(workbooks: &Registry<WorkbookRecord>, err: &mut LastError, workbook: i32, index: i32, buf_present: bool, cap: u32) -> (r: StrOut)
    ensures
        indexed_str_getter(workbooks@, workbook, "workbook"@, |w: WorkbookRecord| strings_view(w.scope_rids@), index, buf_present, cap, r, old(err)@, final(err)@),
{
    match lookup(workbooks, err, workbook, "workbook") {
        Ok(w) => write_item_at(err, &w.scope_rids, index, buf_present, cap),
        Err(code) => str_failed(code),
    }
}

} // verus!
