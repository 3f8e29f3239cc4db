use nominal_ffi::client::ClientEntry;
use nominal_ffi::error::{LastError, NominalErrorCode};
use nominal_ffi::handles::{register, Registry};
use nominal_ffi::search::SearchFilter;
use nominal_ffi::sorted::SortedMap;
use nominal_ffi::template::{nominal_template_title, TemplateEntry};
use nominal_ffi::workbook::{
    nominal_workbook_create_add_scope_asset, nominal_workbook_create_add_scope_run, nominal_workbook_create_begin,
    nominal_workbook_create_commit, nominal_workbook_create_free, nominal_workbook_create_set_title,
    nominal_workbook_get, nominal_workbook_name, nominal_workbook_scope_rid_at, nominal_workbook_scope_rid_count,
    nominal_workbook_scope_type, nominal_workbook_search, NominalWorkbookScopeType, WorkbookRecord,
};

const WORKBOOK_RID: &str = "ri.scout.cerulean-staging.notebook.00000000-0000-0000-0000-000000000020";
const TEMPLATE_RID: &str = "ri.scout.cerulean-staging.template.00000000-0000-0000-0000-000000000030";
const ASSET_RID: &str = "ri.scout.cerulean-staging.asset.00000000-0000-0000-0000-000000000001";
const RUN_RID: &str = "ri.scout.cerulean-staging.run.00000000-0000-0000-0000-000000000010";

fn clients_with_one(err: &mut LastError) -> (Registry<ClientEntry<()>>, i32) {
    let mut clients = Registry::new();
    let entry = ClientEntry { payload: (), base_url: "http://127.0.0.1:1/api".to_string(), workspace_rid: None };
    let client = register(&mut clients, err, Ok(entry)).unwrap();
    (clients, client)
}

fn templates_with_one(err: &mut LastError) -> (Registry<TemplateEntry<()>>, i32) {
    let mut templates = Registry::new();
    let entry = TemplateEntry {
        payload: (),
        rid: TEMPLATE_RID.to_string(),
        title: "Flight review".to_string(),
        description: None,
        commit_id: "c1".to_string(),
        url: String::new(),
        created_at_ms: 0,
    };
    let template = register(&mut templates, err, Ok(entry)).unwrap();
    (templates, template)
}

#[test]
fn create_commit_requires_a_scope() {
    let mut err = LastError::new();
    let (clients, client) = clients_with_one(&mut err);
    let (templates, template) = templates_with_one(&mut err);
    let mut stagings = Registry::new();
    let staging = nominal_workbook_create_begin(&mut stagings, &mut err, true).unwrap();
    let code = nominal_workbook_create_commit(&clients, &templates, &stagings, &mut err, client, template, staging, true)
        .unwrap_err();
    assert_eq!(code, NominalErrorCode::InvalidArgument.code());
    assert!(err.message().contains("scope"), "got: {}", err.message());
    nominal_workbook_create_free(&mut stagings, &mut err, staging);
}

#[test]
fn workbook_calls_reject_invalid_handles() {
    let mut err = LastError::new();
    let clients: Registry<ClientEntry<()>> = Registry::new();
    assert_eq!(
        nominal_workbook_get(&clients, &mut err, 0, Some(WORKBOOK_RID.as_bytes()), true).unwrap_err(),
        NominalErrorCode::InvalidHandle.code()
    );
    let workbooks: Registry<WorkbookRecord> = Registry::new();
    assert_eq!(
        nominal_workbook_name(&workbooks, &mut err, 999_999_999, false, 0).code,
        NominalErrorCode::InvalidHandle.code()
    );
    let templates: Registry<TemplateEntry<()>> = Registry::new();
    assert_eq!(
        nominal_template_title(&templates, &mut err, 999_999_998, false, 0).code,
        NominalErrorCode::InvalidHandle.code()
    );
}

#[test]
fn scope_is_assets_or_runs_not_both() {
    let mut err = LastError::new();
    let (clients, client) = clients_with_one(&mut err);
    let (templates, template) = templates_with_one(&mut err);
    let mut stagings = Registry::new();
    let staging = nominal_workbook_create_begin(&mut stagings, &mut err, true).unwrap();
    assert_eq!(nominal_workbook_create_add_scope_asset(&mut stagings, &mut err, staging, Some(ASSET_RID.as_bytes())), 0);
    assert_eq!(
        nominal_workbook_create_add_scope_run(&mut stagings, &mut err, staging, Some(RUN_RID.as_bytes())),
        NominalErrorCode::InvalidArgument.code()
    );
    assert_eq!(err.message(), "scope is already assets — a workbook scope is assets or runs, not both");
    assert_eq!(nominal_workbook_create_set_title(&mut stagings, &mut err, staging, Some(b"Review")), 0);
    let request =
        nominal_workbook_create_commit(&clients, &templates, &stagings, &mut err, client, template, staging, true).unwrap();
    assert_eq!(request.scope_type, NominalWorkbookScopeType::Assets);
    assert_eq!(request.scope_rids, vec![ASSET_RID.to_string()]);
    assert_eq!(request.title.as_deref(), Some("Review"));
    assert_eq!(
        nominal_workbook_create_commit(&clients, &templates, &stagings, &mut err, client, 77, staging, true).unwrap_err(),
        NominalErrorCode::InvalidHandle.code()
    );
    assert_eq!(err.message(), "invalid template handle: 77");

    let other = nominal_workbook_create_begin(&mut stagings, &mut err, true).unwrap();
    assert_eq!(nominal_workbook_create_add_scope_run(&mut stagings, &mut err, other, Some(RUN_RID.as_bytes())), 0);
    assert_eq!(
        nominal_workbook_create_add_scope_asset(&mut stagings, &mut err, other, Some(ASSET_RID.as_bytes())),
        NominalErrorCode::InvalidArgument.code()
    );
    assert_eq!(err.message(), "scope is already runs — a workbook scope is assets or runs, not both");
}

#[test]
fn workbook_search_adds_attachment_filters() {
    let mut err = LastError::new();
    let (clients, client) = clients_with_one(&mut err);
    let query = nominal_workbook_search(
        &clients,
        &mut err,
        client,
        None,
        None,
        None,
        None,
        Some(ASSET_RID.as_bytes()),
        Some(RUN_RID.as_bytes()),
        true,
    )
    .unwrap();
    assert_eq!(query.filters.len(), 2);
    assert!(matches!(&query.filters[0], SearchFilter::AssetRid(r) if r == ASSET_RID));
    assert!(matches!(&query.filters[1], SearchFilter::RunRid(r) if r == RUN_RID));
    let query = nominal_workbook_search(&clients, &mut err, client, None, None, None, None, None, None, true).unwrap();
    assert!(query.filters.is_empty());
}

#[test]
fn workbook_scope_getters() {
    let mut err = LastError::new();
    let mut workbooks = Registry::new();
    let workbook = register(
        &mut workbooks,
        &mut err,
        Ok(WorkbookRecord {
            rid: WORKBOOK_RID.to_string(),
            name: "Review".to_string(),
            description: None,
            url: String::new(),
            created_at_ms: 0,
            scope_type: NominalWorkbookScopeType::Runs,
            scope_rids: vec![RUN_RID.to_string()],
            properties: SortedMap::new(),
            labels: Vec::new(),
        }),
    )
    .unwrap();
    assert_eq!(nominal_workbook_scope_type(&workbooks, &mut err, workbook, true), Ok(1));
    assert_eq!(nominal_workbook_scope_rid_count(&workbooks, &mut err, workbook, true), Ok(1));
    let out = nominal_workbook_scope_rid_at(&workbooks, &mut err, workbook, 0, true, 128);
    assert_eq!(&out.bytes.unwrap()[..RUN_RID.len()], RUN_RID.as_bytes());
}
