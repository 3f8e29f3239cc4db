use nominal_ffi::client::ClientEntry;
use nominal_ffi::dataset::{
    nominal_dataset_create_begin, nominal_dataset_create_commit, nominal_dataset_create_set_channel_delimiter,
    nominal_dataset_get, nominal_dataset_name, nominal_dataset_update, nominal_dataset_description,
    nominal_dataset_update_add_label, nominal_dataset_update_begin, nominal_dataset_update_commit,
    nominal_dataset_update_set_description, CatalogRecord,
};
use nominal_ffi::error::{LastError, NominalErrorCode};
use nominal_ffi::handles::{register, register_all, nominal_handle_list_count, nominal_handle_list_get, Registry};
use nominal_ffi::sorted::SortedMap;
use nominal_ffi::video::{
    nominal_video_create_add_label, nominal_video_create_begin, nominal_video_create_commit, nominal_video_get,
    nominal_video_name, nominal_video_update, nominal_video_update_begin, nominal_video_update_commit,
    nominal_video_update_set_name,
};

const DATASET_RID: &str = "ri.catalog.cerulean-staging.dataset.00000000-0000-0000-0000-000000000002";
const VIDEO_RID: &str = "ri.catalog.cerulean-staging.video.00000000-0000-0000-0000-000000000003";

fn clients_with_one(err: &mut LastError) -> (Registry<ClientEntry<()>>, i32) {
    let mut clients = Registry::new();
    let entry = ClientEntry { payload: (), base_url: "http://127.0.0.1:1/api".to_string(), workspace_rid: None };
    let client = register(&mut clients, err, Ok(entry)).unwrap();
    (clients, client)
}

fn record(rid: &str, name: &str) -> CatalogRecord {
    CatalogRecord {
        rid: rid.to_string(),
        name: name.to_string(),
        description: None,
        url: String::new(),
        created_at_ms: 0,
        properties: SortedMap::new(),
        labels: Vec::new(),
    }
}

#[test]
fn tier2_dataset_http_flat_update_with_nothing_to_change_is_rejected() {
    let mut err = LastError::new();
    let (clients, client) = clients_with_one(&mut err);
    assert_eq!(
        nominal_dataset_update(&clients, &mut err, client, Some(DATASET_RID.as_bytes()), None, None, true).unwrap_err(),
        NominalErrorCode::InvalidArgument.code()
    );
}

#[test]
fn dataset_calls_reject_invalid_handles() {
    let mut err = LastError::new();
    let clients: Registry<ClientEntry<()>> = Registry::new();
    assert_eq!(
        nominal_dataset_get(&clients, &mut err, 0, Some(DATASET_RID.as_bytes()), true).unwrap_err(),
        NominalErrorCode::InvalidHandle.code()
    );
    let datasets: Registry<CatalogRecord> = Registry::new();
    let out = nominal_dataset_name(&datasets, &mut err, 999_999_999, false, 0);
    assert_eq!(out.code, NominalErrorCode::InvalidHandle.code());
    assert_eq!(err.message(), "invalid dataset handle: 999999999");
}

#[test]
fn tier2_video_http_flat_update_with_nothing_to_change_is_rejected() {
    let mut err = LastError::new();
    let (clients, client) = clients_with_one(&mut err);
    assert_eq!(
        nominal_video_update(&clients, &mut err, client, Some(VIDEO_RID.as_bytes()), None, None, true).unwrap_err(),
        NominalErrorCode::InvalidArgument.code()
    );
}

#[test]
fn video_calls_reject_invalid_handles() {
    let mut err = LastError::new();
    let clients: Registry<ClientEntry<()>> = Registry::new();
    assert_eq!(
        nominal_video_get(&clients, &mut err, 0, Some(VIDEO_RID.as_bytes()), true).unwrap_err(),
        NominalErrorCode::InvalidHandle.code()
    );
    let videos: Registry<CatalogRecord> = Registry::new();
    let out = nominal_video_name(&videos, &mut err, 999_999_999, false, 0);
    assert_eq!(out.code, NominalErrorCode::InvalidHandle.code());
}

#[test]
fn dataset_staged_create_carries_delimiter() {
    let mut err = LastError::new();
    let (clients, client) = clients_with_one(&mut err);
    let mut stagings = Registry::new();
    let staging = nominal_dataset_create_begin(&mut stagings, &mut err, Some(b"telemetry"), true).unwrap();
    assert_eq!(
        nominal_dataset_create_set_channel_delimiter(&mut stagings, &mut err, staging, Some(b"")),
        NominalErrorCode::InvalidArgument.code()
    );
    assert_eq!(err.message(), "delimiter must not be empty");
    assert_eq!(nominal_dataset_create_set_channel_delimiter(&mut stagings, &mut err, staging, Some(b".")), 0);
    let request = nominal_dataset_create_commit(&clients, &stagings, &mut err, client, staging, true).unwrap();
    assert_eq!(request.name, "telemetry");
    assert_eq!(request.channel_delimiter.as_deref(), Some("."));
    assert_eq!(request.labels, None);
    assert_eq!(request.properties, None);
    let code = nominal_dataset_create_commit(&clients, &stagings, &mut err, client, staging, false).unwrap_err();
    assert_eq!(code, NominalErrorCode::NullArgument.code());
    assert_eq!(err.message(), "out_dataset must not be null");
}

#[test]
fn dataset_staged_update_keeps_empty_description() {
    let mut err = LastError::new();
    let (clients, client) = clients_with_one(&mut err);
    let mut stagings = Registry::new();
    let staging = nominal_dataset_update_begin(&mut stagings, &mut err, true).unwrap();
    assert_eq!(nominal_dataset_update_set_description(&mut stagings, &mut err, staging, Some(b"")), 0);
    assert_eq!(nominal_dataset_update_add_label(&mut stagings, &mut err, staging, Some(b"a")), 0);
    assert_eq!(nominal_dataset_update_add_label(&mut stagings, &mut err, staging, Some(b"b")), 0);
    let (_, request) =
        nominal_dataset_update_commit(&clients, &stagings, &mut err, client, Some(DATASET_RID.as_bytes()), staging, true)
            .unwrap();
    // An empty description clears it; labels replace the whole set.
    assert_eq!(request.description.as_deref(), Some(""));
    assert_eq!(request.labels, Some(vec!["a".to_string(), "b".to_string()]));
    // Committing again gives the same request: the staging handle stays valid.
    let (_, again) =
        nominal_dataset_update_commit(&clients, &stagings, &mut err, client, Some(DATASET_RID.as_bytes()), staging, true)
            .unwrap();
    assert_eq!(again.labels, request.labels);
}

#[test]
fn video_staged_create_and_update() {
    let mut err = LastError::new();
    let (clients, client) = clients_with_one(&mut err);
    let mut creates = Registry::new();
    let staging = nominal_video_create_begin(&mut creates, &mut err, Some(b"Onboard cam"), true).unwrap();
    assert_eq!(nominal_video_create_add_label(&mut creates, &mut err, staging, Some(b"cam")), 0);
    let request = nominal_video_create_commit(&clients, &creates, &mut err, client, staging, true).unwrap();
    assert_eq!(request.labels, Some(vec!["cam".to_string()]));

    let mut updates = Registry::new();
    let staging = nominal_video_update_begin(&mut updates, &mut err, true).unwrap();
    assert_eq!(
        nominal_video_update_set_name(&mut updates, &mut err, staging, Some(b"")),
        NominalErrorCode::InvalidArgument.code()
    );
    assert_eq!(nominal_video_update_set_name(&mut updates, &mut err, staging, Some(b"Renamed")), 0);
    let (_, request) =
        nominal_video_update_commit(&clients, &updates, &mut err, client, Some(VIDEO_RID.as_bytes()), staging, true).unwrap();
    assert_eq!(request.name.as_deref(), Some("Renamed"));
}

#[test]
fn list_results_become_a_handle_list() {
    let mut err = LastError::new();
    let mut datasets = Registry::new();
    let mut lists = Registry::new();
    let (list, count) = register_all(
        &mut datasets,
        &mut lists,
        &mut err,
        Ok(vec![record(DATASET_RID, "first"), record("ri.catalog.x.dataset.2", "second")]),
    )
    .unwrap();
    assert_eq!(count, 2);
    assert_eq!(nominal_handle_list_count(&lists, &mut err, list, true), Ok(2));
    let first = nominal_handle_list_get(&lists, &mut err, list, 0, true).unwrap();
    let second = nominal_handle_list_get(&lists, &mut err, list, 1, true).unwrap();
    assert_ne!(first, second);
    let out = nominal_dataset_name(&datasets, &mut err, second, true, 16);
    assert_eq!(&out.bytes.unwrap()[..6], b"second");
    let out = nominal_dataset_description(&datasets, &mut err, first, false, 0);
    assert_eq!((out.code, out.needed, out.present), (0, Some(0), Some(false)));
}
