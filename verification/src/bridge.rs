//! Everything the bridge keeps between calls: the last-error message and
//! one registry per kind of object the host holds a handle to.

use vstd::prelude::*;

use crate::asset::AssetRecord;
use crate::channel::ChannelRecord;
use crate::client::ClientEntry;
use crate::dataset::CatalogRecord;
use crate::error::LastError;
use crate::handles::Registry;
use crate::ingest::{IngestJobRecord, TabularIngestParams};
use crate::run::{RunCreateParams, RunRecord};
use crate::staging::{CreateParams, UpdateParams};
use crate::template::TemplateEntry;
use crate::user::UserRecord;
use crate::workbook::{WorkbookCreateParams, WorkbookRecord};
use crate::workspace::WorkspaceRecord;

verus! {

/// The bridge's state. `C` is the SDK's client type and `T` its template
/// type: the two objects later calls hand back to the SDK.
pub struct Bridge<C, T> {
    pub err: LastError,
    pub clients: Registry<ClientEntry<C>>,
    pub handle_lists: Registry<Vec<i32>>,
    pub assets: Registry<AssetRecord>,
    pub asset_creates: Registry<CreateParams>,
    pub asset_updates: Registry<UpdateParams>,
    pub datasets: Registry<CatalogRecord>,
    pub dataset_creates: Registry<CreateParams>,
    pub dataset_updates: Registry<UpdateParams>,
    pub videos: Registry<CatalogRecord>,
    pub video_creates: Registry<CreateParams>,
    pub video_updates: Registry<UpdateParams>,
    pub runs: Registry<RunRecord>,
    pub run_creates: Registry<RunCreateParams>,
    pub run_updates: Registry<UpdateParams>,
    pub channels: Registry<ChannelRecord>,
    pub tabular_ingests: Registry<TabularIngestParams>,
    pub ingest_jobs: Registry<IngestJobRecord>,
    pub templates: Registry<TemplateEntry<T>>,
    pub users: Registry<UserRecord>,
    pub workspaces: Registry<WorkspaceRecord>,
    pub workbooks: Registry<WorkbookRecord>,
    pub workbook_creates: Registry<WorkbookCreateParams>,
}

impl<C, T> Bridge<C, T> {
    /// A bridge with no message and no live handle.
    pub fn new() -> (r: Self)
        ensures
            r.err@ == Seq::<char>::empty(),
            r.clients@ == Map::<i32, ClientEntry<C>>::empty(),
            r.templates@ == Map::<i32, TemplateEntry<T>>::empty(),
            r.assets@ == Map::<i32, AssetRecord>::empty(),
            r.runs@ == Map::<i32, RunRecord>::empty(),
    {
        Bridge {
            err: LastError::new(),
            clients: Registry::new(),
            handle_lists: Registry::new(),
            assets: Registry::new(),
            asset_creates: Registry::new(),
            asset_updates: Registry::new(),
            datasets: Registry::new(),
            dataset_creates: Registry::new(),
            dataset_updates: Registry::new(),
            videos: Registry::new(),
            video_creates: Registry::new(),
            video_updates: Registry::new(),
            runs: Registry::new(),
            run_creates: Registry::new(),
            run_updates: Registry::new(),
            channels: Registry::new(),
            tabular_ingests: Registry::new(),
            ingest_jobs: Registry::new(),
            templates: Registry::new(),
            users: Registry::new(),
            workspaces: Registry::new(),
            workbooks: Registry::new(),
            workbook_creates: Registry::new(),
        }
    }
}

} // verus!
