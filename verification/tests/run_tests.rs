use nominal_ffi::client::ClientEntry;
use nominal_ffi::error::{LastError, NominalErrorCode};
use nominal_ffi::handles::{register, Registry};
use nominal_ffi::run::{
    nominal_run_add_attachment, nominal_run_add_dataset, nominal_run_create, nominal_run_create_add_asset,
    nominal_run_create_add_label, nominal_run_create_begin, nominal_run_create_commit, nominal_run_create_free,
    nominal_run_create_set_description, nominal_run_create_set_end, nominal_run_create_set_property, nominal_run_end,
    nominal_run_get, nominal_run_name, nominal_run_number, nominal_run_search, nominal_run_start,
    nominal_run_update_add_label, nominal_run_update_begin, nominal_run_update_commit, nominal_run_update_free,
    nominal_run_update_set_start, RunRecord,
};
use nominal_ffi::search::SearchFilter;
use nominal_ffi::sorted::SortedMap;
use nominal_ffi::time::MillisArg;

const RUN_RID: &str = "ri.scout.cerulean-staging.run.00000000-0000-0000-0000-000000000010";
const ASSET_RID: &str = "ri.scout.cerulean-staging.asset.00000000-0000-0000-0000-000000000001";
const DATASET_RID: &str = "ri.catalog.cerulean-staging.dataset.00000000-0000-0000-0000-000000000002";
const START_MS: f64 = 1_705_314_600_500.0;
const END_MS: f64 = 1_705_318_200_000.0;

/// A host-side `f64` timestamp as the host layer hands it over.
fn millis(ms: f64) -> MillisArg {
    MillisArg { rounded: if ms.is_finite() { Some(ms.round() as i64) } else { None }, shown: format!("{ms}") }
}

fn clients_with_one(err: &mut LastError) -> (Registry<ClientEntry<()>>, i32) {
    let mut clients = Registry::new();
    let entry = ClientEntry { payload: (), base_url: "http://127.0.0.1:1/api".to_string(), workspace_rid: None };
    let client = register(&mut clients, err, Ok(entry)).unwrap();
    (clients, client)
}

#[test]
fn create_rejects_non_finite_start() {
    let mut err = LastError::new();
    let (clients, client) = clients_with_one(&mut err);
    let code = nominal_run_create(&clients, &mut err, client, Some(b"Bad"), None, &millis(f64::NAN), &millis(0.0), false, true)
        .unwrap_err();
    assert_eq!(code, NominalErrorCode::InvalidArgument.code());
    assert_eq!(err.message(), "argument 'start_ms' must be a finite Unix-millisecond timestamp, got NaN");
}

#[test]
fn tier2_run_http_staged_update_with_no_fields_is_rejected() {
    let mut err = LastError::new();
    let (clients, client) = clients_with_one(&mut err);
    let mut stagings = Registry::new();
    let staging = nominal_run_update_begin(&mut stagings, &mut err, true).unwrap();
    let code = nominal_run_update_commit(&clients, &stagings, &mut err, client, Some(RUN_RID.as_bytes()), staging, true)
        .unwrap_err();
    assert_eq!(code, NominalErrorCode::InvalidArgument.code());
    assert!(err.message().contains("no fields"), "got: {}", err.message());
    nominal_run_update_free(&mut stagings, &mut err, staging);
}

#[test]
fn run_calls_reject_invalid_handles() {
    let mut err = LastError::new();
    let clients: Registry<ClientEntry<()>> = Registry::new();
    assert_eq!(
        nominal_run_get(&clients, &mut err, 0, Some(RUN_RID.as_bytes()), true).unwrap_err(),
        NominalErrorCode::InvalidHandle.code()
    );
    let runs: Registry<RunRecord> = Registry::new();
    let out = nominal_run_name(&runs, &mut err, 999_999_999, false, 0);
    assert_eq!(out.code, NominalErrorCode::InvalidHandle.code());
    let mut updates = Registry::new();
    assert_eq!(
        nominal_run_update_set_start(&mut updates, &mut err, 0, &millis(0.0)),
        NominalErrorCode::InvalidHandle.code()
    );
}

#[test]
fn tier2_run_http_search_sends_combined_filters() {
    let mut err = LastError::new();
    let (clients, client) = clients_with_one(&mut err);
    let query = nominal_run_search(
        &clients,
        &mut err,
        client,
        Some(b"burn"),
        Some(b"prod"),
        None,
        None,
        42,
        &millis(0.0),
        false,
        &millis(0.0),
        false,
        true,
    )
    .unwrap();
    assert_eq!(query.filters.len(), 3);
    assert!(matches!(&query.filters[0], SearchFilter::SearchText(t) if t == "burn"));
    assert!(matches!(&query.filters[1], SearchFilter::Label(l) if l == "prod"));
    assert!(matches!(&query.filters[2], SearchFilter::RunNumber(42)));
}

#[test]
fn run_search_time_filters() {
    let mut err = LastError::new();
    let (clients, client) = clients_with_one(&mut err);
    let query = nominal_run_search(
        &clients, &mut err, client, None, None, None, None, 0, &millis(START_MS), true, &millis(END_MS), true, true,
    )
    .unwrap();
    assert_eq!(query.filters.len(), 2);
    assert!(matches!(query.filters[0], SearchFilter::StartTimeInclusive(1_705_314_600_500)));
    assert!(matches!(query.filters[1], SearchFilter::EndTimeInclusive(1_705_318_200_000)));
    let code = nominal_run_search(
        &clients, &mut err, client, None, None, None, None, 0, &millis(0.0), false, &millis(1e300), true, true,
    )
    .unwrap_err();
    assert_eq!(code, NominalErrorCode::InvalidArgument.code());
    assert!(err.message().starts_with("argument 'end_before_ms' is out of timestamp range: "));
}

#[test]
fn staged_create_sends_everything() {
    let mut err = LastError::new();
    let (clients, client) = clients_with_one(&mut err);
    let mut stagings = Registry::new();
    let staging = nominal_run_create_begin(&mut stagings, &mut err, Some(b"Burn 43"), &millis(1_705_314_600_000.0), true).unwrap();
    assert_eq!(nominal_run_create_set_description(&mut stagings, &mut err, staging, Some(b"Staged burn")), 0);
    assert_eq!(nominal_run_create_set_end(&mut stagings, &mut err, staging, &millis(END_MS)), 0);
    assert_eq!(nominal_run_create_add_label(&mut stagings, &mut err, staging, Some(b"prod")), 0);
    assert_eq!(nominal_run_create_set_property(&mut stagings, &mut err, staging, Some(b"vehicle"), Some(b"rocket-1")), 0);
    assert_eq!(nominal_run_create_add_asset(&mut stagings, &mut err, staging, Some(ASSET_RID.as_bytes())), 0);

    let request = nominal_run_create_commit(&clients, &stagings, &mut err, client, staging, true).unwrap();
    assert_eq!(request.name, "Burn 43");
    assert_eq!(request.description.as_deref(), Some("Staged burn"));
    assert_eq!(request.start_ms, 1_705_314_600_000);
    assert_eq!(request.end_ms, Some(1_705_318_200_000));
    assert_eq!(request.labels, Some(vec!["prod".to_string()]));
    assert_eq!(request.properties, Some(vec![("vehicle".to_string(), "rocket-1".to_string())]));
    assert_eq!(request.assets, Some(vec![ASSET_RID.to_string()]));

    assert_eq!(nominal_run_create_free(&mut stagings, &mut err, staging), 0);
    assert_eq!(nominal_run_create_free(&mut stagings, &mut err, staging), NominalErrorCode::InvalidHandle.code());
}

#[test]
fn staged_update_replaces_labels_and_start() {
    let mut err = LastError::new();
    let (clients, client) = clients_with_one(&mut err);
    let mut stagings = Registry::new();
    let staging = nominal_run_update_begin(&mut stagings, &mut err, true).unwrap();
    assert_eq!(nominal_run_update_add_label(&mut stagings, &mut err, staging, Some(b"only-label")), 0);
    assert_eq!(nominal_run_update_set_start(&mut stagings, &mut err, staging, &millis(1_705_314_600_000.0)), 0);
    let (rid, request) =
        nominal_run_update_commit(&clients, &stagings, &mut err, client, Some(RUN_RID.as_bytes()), staging, true).unwrap();
    assert_eq!(rid, RUN_RID);
    assert_eq!(request.labels, Some(vec!["only-label".to_string()]));
    assert_eq!(request.start_ms, Some(1_705_314_600_000));
    assert_eq!(request.end_ms, None);
}

#[test]
fn run_create_begin_checks_name_and_start() {
    let mut err = LastError::new();
    let mut stagings = Registry::new();
    assert_eq!(
        nominal_run_create_begin(&mut stagings, &mut err, Some(b""), &millis(START_MS), true).unwrap_err(),
        NominalErrorCode::InvalidArgument.code()
    );
    assert_eq!(
        nominal_run_create_begin(&mut stagings, &mut err, Some(b"x"), &millis(f64::INFINITY), true).unwrap_err(),
        NominalErrorCode::InvalidArgument.code()
    );
    assert_eq!(err.message(), "argument 'start_ms' must be a finite Unix-millisecond timestamp, got inf");
    let staging = nominal_run_create_begin(&mut stagings, &mut err, Some(b"x"), &millis(START_MS), true).unwrap();
    assert_eq!(
        nominal_run_create_add_asset(&mut stagings, &mut err, staging, Some(b"")),
        NominalErrorCode::InvalidArgument.code()
    );
    assert_eq!(err.message(), "asset_rid must not be empty");
}

#[test]
fn run_attach_and_attachment_arguments() {
    let mut err = LastError::new();
    let (clients, client) = clients_with_one(&mut err);
    let (rid, name, source) = nominal_run_add_dataset(
        &clients,
        &mut err,
        client,
        Some(RUN_RID.as_bytes()),
        Some(b"primary"),
        Some(DATASET_RID.as_bytes()),
        true,
    )
    .unwrap();
    assert_eq!((rid.as_str(), name.as_str(), source.as_str()), (RUN_RID, "primary", DATASET_RID));
    let code = nominal_run_add_dataset(&clients, &mut err, client, Some(RUN_RID.as_bytes()), Some(b"primary"), None, true)
        .unwrap_err();
    assert_eq!(code, NominalErrorCode::NullArgument.code());
    assert_eq!(err.message(), "argument 'dataset_rid' must not be null");
    let code = nominal_run_add_attachment(&clients, &mut err, client, Some(RUN_RID.as_bytes()), None).unwrap_err();
    assert_eq!(code, NominalErrorCode::NullArgument.code());
    assert_eq!(err.message(), "argument 'attachment_rid' must not be null");
}

#[test]
fn run_getters_report_times() {
    let mut err = LastError::new();
    let mut runs = Registry::new();
    let run = register(
        &mut runs,
        &mut err,
        Ok(RunRecord {
            rid: RUN_RID.to_string(),
            name: "Burn 42".to_string(),
            description: String::new(),
            url: String::new(),
            run_number: 42,
            start_ms: 1_705_314_600_500,
            end_ms: None,
            created_at_ms: 1_705_314_600_000,
            properties: SortedMap::new(),
            labels: Vec::new(),
            assets: Vec::new(),
            data_sources: SortedMap::new(),
        }),
    )
    .unwrap();
    assert_eq!(nominal_run_number(&runs, &mut err, run, true), Ok(42));
    assert_eq!(nominal_run_start(&runs, &mut err, run, true), Ok(1_705_314_600_500));
    assert_eq!(nominal_run_end(&runs, &mut err, run, true), Ok(None));
    assert_eq!(nominal_run_end(&runs, &mut err, run, false), Err(NominalErrorCode::NullArgument.code()));
    assert_eq!(err.message(), "out_millis and is_present must not be null");
}
