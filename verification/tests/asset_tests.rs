use nominal_ffi::asset::{
    nominal_asset_archive, nominal_asset_create, nominal_asset_create_add_label, nominal_asset_create_begin,
    nominal_asset_create_commit, nominal_asset_create_free, nominal_asset_create_set_description,
    nominal_asset_create_set_property, nominal_asset_data_source_count, nominal_asset_data_source_name_at,
    nominal_asset_data_source_rid_at, nominal_asset_data_source_type_at, nominal_asset_description,
    nominal_asset_free, nominal_asset_get, nominal_asset_label_at, nominal_asset_label_count, nominal_asset_name,
    nominal_asset_property_count, nominal_asset_property_key_at, nominal_asset_property_value_at,
    nominal_asset_search, nominal_asset_update, nominal_asset_update_add_label, nominal_asset_update_begin,
    nominal_asset_update_commit, nominal_asset_update_free, nominal_asset_update_set_property,
    nominal_asset_created_at, AssetRecord, DataSourceRef, NominalDataSourceType,
};
use nominal_ffi::client::ClientEntry;
use nominal_ffi::error::{LastError, NominalErrorCode};
use nominal_ffi::handles::{register, Registry};
use nominal_ffi::search::SearchFilter;
use nominal_ffi::sorted::SortedMap;
use nominal_ffi::strings::StrOut;

const ASSET_RID: &str = "ri.scout.cerulean-staging.asset.00000000-0000-0000-0000-000000000001";
const DATASET_RID: &str = "ri.catalog.cerulean-staging.dataset.00000000-0000-0000-0000-000000000002";
const VIDEO_RID: &str = "ri.catalog.cerulean-staging.video.00000000-0000-0000-0000-000000000003";

fn clients_with_one(err: &mut LastError) -> (Registry<ClientEntry<()>>, i32) {
    let mut clients = Registry::new();
    let entry = ClientEntry { payload: (), base_url: "http://127.0.0.1:1/api".to_string(), workspace_rid: None };
    let client = register(&mut clients, err, Ok(entry)).unwrap();
    (clients, client)
}

fn text(out: StrOut) -> String {
    assert_eq!(out.code, 0);
    let needed = out.needed.unwrap() as usize;
    let bytes = out.bytes.unwrap();
    assert_eq!(bytes[needed], 0);
    String::from_utf8(bytes[..needed].to_vec()).unwrap()
}

fn sample_asset() -> AssetRecord {
    AssetRecord {
        rid: ASSET_RID.to_string(),
        name: "Flight 42".to_string(),
        description: Some("Test flight".to_string()),
        url: "https://app.gov.nominal.io/assets/1".to_string(),
        created_at_ms: 1_705_314_600_000,
        properties: SortedMap::from_pairs(vec![
            ("vehicle".to_string(), "rocket-1".to_string()),
            ("engine".to_string(), "m9".to_string()),
        ]),
        labels: vec!["prod".to_string(), "flight".to_string()],
        data_sources: SortedMap::from_pairs(vec![
            ("video".to_string(), DataSourceRef { kind: NominalDataSourceType::Video, rid: VIDEO_RID.to_string() }),
            ("data".to_string(), DataSourceRef { kind: NominalDataSourceType::Dataset, rid: DATASET_RID.to_string() }),
        ]),
    }
}

#[test]
fn search_property_key_without_value_is_rejected() {
    let mut err = LastError::new();
    let (clients, client) = clients_with_one(&mut err);
    let code = nominal_asset_search(&clients, &mut err, client, None, None, Some(b"vehicle"), None, true).unwrap_err();
    assert_eq!(code, NominalErrorCode::InvalidArgument.code());
    assert_eq!(err.message(), "property_key and property_value must be provided together");
}

#[test]
fn update_with_nothing_to_change_is_rejected() {
    let mut err = LastError::new();
    let (clients, client) = clients_with_one(&mut err);
    let code = nominal_asset_update(&clients, &mut err, client, Some(ASSET_RID.as_bytes()), None, None, true).unwrap_err();
    assert_eq!(code, NominalErrorCode::InvalidArgument.code());
    assert_eq!(err.message(), "at least one of name or description must be provided");
}

#[test]
fn staged_create_rejects_empty_name_and_label() {
    let mut stagings = Registry::new();
    let mut err = LastError::new();
    assert_eq!(
        nominal_asset_create_begin(&mut stagings, &mut err, Some(b""), true).unwrap_err(),
        NominalErrorCode::InvalidArgument.code()
    );

    let staging = nominal_asset_create_begin(&mut stagings, &mut err, Some(b"Valid"), true).unwrap();
    assert_eq!(
        nominal_asset_create_add_label(&mut stagings, &mut err, staging, Some(b"")),
        NominalErrorCode::InvalidArgument.code()
    );
    assert_eq!(
        nominal_asset_create_set_property(&mut stagings, &mut err, staging, Some(b""), Some(b"v")),
        NominalErrorCode::InvalidArgument.code()
    );
    nominal_asset_create_free(&mut stagings, &mut err, staging);
}

#[test]
fn tier2_asset_http_staged_update_with_no_fields_is_rejected() {
    let mut err = LastError::new();
    let (clients, client) = clients_with_one(&mut err);
    let mut stagings = Registry::new();
    let staging = nominal_asset_update_begin(&mut stagings, &mut err, true).unwrap();
    let code = nominal_asset_update_commit(&clients, &stagings, &mut err, client, Some(ASSET_RID.as_bytes()), staging, true)
        .unwrap_err();
    assert_eq!(code, NominalErrorCode::InvalidArgument.code());
    assert!(err.message().contains("no fields"), "got: {}", err.message());
    nominal_asset_update_free(&mut stagings, &mut err, staging);
}

#[test]
fn staging_calls_reject_invalid_staging_handle() {
    let mut err = LastError::new();
    let mut creates = Registry::new();
    let mut updates = Registry::new();
    assert_eq!(
        nominal_asset_create_add_label(&mut creates, &mut err, 0, Some(b"x")),
        NominalErrorCode::InvalidHandle.code()
    );
    assert_eq!(
        nominal_asset_update_add_label(&mut updates, &mut err, 987_654_321, Some(b"x")),
        NominalErrorCode::InvalidHandle.code()
    );
    assert_eq!(err.message(), "invalid asset-update staging handle: 987654321");
}

#[test]
fn asset_calls_reject_invalid_client_handle() {
    let mut err = LastError::new();
    let clients: Registry<ClientEntry<()>> = Registry::new();
    assert_eq!(
        nominal_asset_get(&clients, &mut err, 0, Some(ASSET_RID.as_bytes()), true).unwrap_err(),
        NominalErrorCode::InvalidHandle.code()
    );
    assert_eq!(
        nominal_asset_archive(&clients, &mut err, 12_345_678, Some(ASSET_RID.as_bytes())).unwrap_err(),
        NominalErrorCode::InvalidHandle.code()
    );
    assert_eq!(err.message(), "invalid client handle: 12345678");
}

#[test]
fn tier2_asset_http_search_sends_combined_filters() {
    let mut err = LastError::new();
    let (clients, client) = clients_with_one(&mut err);
    let query = nominal_asset_search(
        &clients,
        &mut err,
        client,
        Some(b"flight"),
        Some(b"prod"),
        Some(b"vehicle"),
        Some(b"rocket-1"),
        true,
    )
    .unwrap();
    assert_eq!(query.filters.len(), 3);
    assert!(matches!(&query.filters[0], SearchFilter::SearchText(t) if t == "flight"));
    assert!(matches!(&query.filters[1], SearchFilter::Label(l) if l == "prod"));
    assert!(matches!(&query.filters[2], SearchFilter::Property(k, v) if k == "vehicle" && v == "rocket-1"));
}

#[test]
fn tier2_asset_http_staged_create_sends_labels_and_properties() {
    let mut err = LastError::new();
    let (clients, client) = clients_with_one(&mut err);
    let mut stagings = Registry::new();
    let staging = nominal_asset_create_begin(&mut stagings, &mut err, Some(b"Flight 43"), true).unwrap();
    assert!(staging > 0);
    assert_eq!(nominal_asset_create_set_description(&mut stagings, &mut err, staging, Some(b"Staged flight")), 0);
    for label in ["prod", "flight"] {
        assert_eq!(nominal_asset_create_add_label(&mut stagings, &mut err, staging, Some(label.as_bytes())), 0);
    }
    for (key, value) in [("vehicle", "rocket-1"), ("engine", "m9")] {
        assert_eq!(
            nominal_asset_create_set_property(&mut stagings, &mut err, staging, Some(key.as_bytes()), Some(value.as_bytes())),
            0
        );
    }
    // Same key overwrites: the request must carry rocket-2, not rocket-1.
    assert_eq!(nominal_asset_create_set_property(&mut stagings, &mut err, staging, Some(b"vehicle"), Some(b"rocket-2")), 0);

    let request = nominal_asset_create_commit(&clients, &stagings, &mut err, client, staging, true).unwrap();
    assert_eq!(request.name, "Flight 43");
    assert_eq!(request.description.as_deref(), Some("Staged flight"));
    let mut labels = request.labels.unwrap();
    labels.sort();
    assert_eq!(labels, vec!["flight".to_string(), "prod".to_string()]);
    assert_eq!(
        request.properties.unwrap(),
        vec![("engine".to_string(), "m9".to_string()), ("vehicle".to_string(), "rocket-2".to_string())]
    );

    assert_eq!(nominal_asset_create_free(&mut stagings, &mut err, staging), 0);
    assert_eq!(
        nominal_asset_create_free(&mut stagings, &mut err, staging),
        NominalErrorCode::InvalidHandle.code(),
        "double free of staging must fail"
    );
}

#[test]
fn staged_update_replaces_labels_and_properties() {
    let mut err = LastError::new();
    let (clients, client) = clients_with_one(&mut err);
    let mut stagings = Registry::new();
    let staging = nominal_asset_update_begin(&mut stagings, &mut err, true).unwrap();
    assert_eq!(nominal_asset_update_add_label(&mut stagings, &mut err, staging, Some(b"only-label")), 0);
    assert_eq!(nominal_asset_update_set_property(&mut stagings, &mut err, staging, Some(b"phase"), Some(b"descent")), 0);
    let (rid, request) =
        nominal_asset_update_commit(&clients, &stagings, &mut err, client, Some(ASSET_RID.as_bytes()), staging, true).unwrap();
    assert_eq!(rid, ASSET_RID);
    assert_eq!(request.labels, Some(vec!["only-label".to_string()]));
    assert_eq!(request.properties, Some(vec![("phase".to_string(), "descent".to_string())]));
    assert_eq!(request.name, None);
    assert_eq!(request.description, None);
    nominal_asset_update_free(&mut stagings, &mut err, staging);
}

#[test]
fn update_asset_sends_only_set_fields() {
    let mut err = LastError::new();
    let (clients, client) = clients_with_one(&mut err);
    let (rid, request) =
        nominal_asset_update(&clients, &mut err, client, Some(ASSET_RID.as_bytes()), Some(b"Renamed"), None, true).unwrap();
    assert_eq!(rid, ASSET_RID);
    assert_eq!(request.name.as_deref(), Some("Renamed"));
    assert_eq!(request.description, None);
    assert_eq!(request.labels, None);
    assert_eq!(request.properties, None);
}

#[test]
fn flat_create_carries_name_and_description() {
    let mut err = LastError::new();
    let (clients, client) = clients_with_one(&mut err);
    let request = nominal_asset_create(&clients, &mut err, client, Some(b"Flight 42"), Some(b""), true).unwrap();
    assert_eq!(request.name, "Flight 42");
    assert_eq!(request.description, None);
    let code = nominal_asset_create(&clients, &mut err, client, None, None, true).unwrap_err();
    assert_eq!(code, NominalErrorCode::NullArgument.code());
    assert_eq!(err.message(), "argument 'name' must not be null");
    let code = nominal_asset_create(&clients, &mut err, client, Some(b"x"), None, false).unwrap_err();
    assert_eq!(code, NominalErrorCode::NullArgument.code());
    assert_eq!(err.message(), "out_asset must not be null");
}

#[test]
fn asset_getters_read_sorted_fields() {
    let mut err = LastError::new();
    let mut assets = Registry::new();
    let asset = register(&mut assets, &mut err, Ok(sample_asset())).unwrap();

    assert_eq!(text(nominal_asset_name(&assets, &mut err, asset, true, 64)), "Flight 42");
    let out = nominal_asset_description(&assets, &mut err, asset, true, 64);
    assert_eq!(out.present, Some(true));
    assert_eq!(text(out), "Test flight");
    assert_eq!(nominal_asset_created_at(&assets, &mut err, asset, true), Ok(1_705_314_600_000));

    // Properties come back in ascending key order.
    assert_eq!(nominal_asset_property_count(&assets, &mut err, asset, true), Ok(2));
    assert_eq!(text(nominal_asset_property_key_at(&assets, &mut err, asset, 0, true, 64)), "engine");
    assert_eq!(text(nominal_asset_property_value_at(&assets, &mut err, asset, 0, true, 64)), "m9");
    assert_eq!(text(nominal_asset_property_key_at(&assets, &mut err, asset, 1, true, 64)), "vehicle");
    assert_eq!(text(nominal_asset_property_value_at(&assets, &mut err, asset, 1, true, 64)), "rocket-1");

    // Labels keep their order.
    assert_eq!(nominal_asset_label_count(&assets, &mut err, asset, true), Ok(2));
    assert_eq!(text(nominal_asset_label_at(&assets, &mut err, asset, 1, true, 64)), "flight");

    // Data sources come back in ascending name order.
    assert_eq!(nominal_asset_data_source_count(&assets, &mut err, asset, true), Ok(2));
    assert_eq!(text(nominal_asset_data_source_name_at(&assets, &mut err, asset, 0, true, 64)), "data");
    assert_eq!(text(nominal_asset_data_source_rid_at(&assets, &mut err, asset, 0, true, 128)), DATASET_RID);
    assert_eq!(nominal_asset_data_source_type_at(&assets, &mut err, asset, 0, true), Ok(0));
    assert_eq!(nominal_asset_data_source_type_at(&assets, &mut err, asset, 1, true), Ok(1));

    // Out of range, and negative, indices are refused with the count.
    let out = nominal_asset_label_at(&assets, &mut err, asset, 2, true, 64);
    assert_eq!(out.code, NominalErrorCode::IndexOutOfRange.code());
    assert_eq!(err.message(), "index 2 out of range for collection of 2");
    assert_eq!(
        nominal_asset_data_source_type_at(&assets, &mut err, asset, -1, true),
        Err(NominalErrorCode::IndexOutOfRange.code())
    );
    assert_eq!(err.message(), "index -1 out of range for collection of 2");
    assert_eq!(
        nominal_asset_data_source_type_at(&assets, &mut err, asset, 0, false),
        Err(NominalErrorCode::NullArgument.code())
    );
    assert_eq!(err.message(), "out_type must not be null");
    assert_eq!(
        nominal_asset_property_count(&assets, &mut err, asset, false),
        Err(NominalErrorCode::NullArgument.code())
    );
    assert_eq!(err.message(), "out_count must not be null");

    assert_eq!(nominal_asset_free(&mut assets, &mut err, asset), 0);
    assert_eq!(nominal_asset_free(&mut assets, &mut err, asset), NominalErrorCode::InvalidHandle.code());
    assert_eq!(err.message(), format!("invalid asset handle: {asset}"));
}

#[test]
fn staged_property_with_empty_key_is_refused_and_changes_nothing() {
    let mut err = LastError::new();
    let (clients, client) = clients_with_one(&mut err);
    let mut stagings = Registry::new();
    let staging = nominal_asset_create_begin(&mut stagings, &mut err, Some(b"Flight 43"), true).unwrap();
    assert_eq!(nominal_asset_create_set_property(&mut stagings, &mut err, staging, Some(b"vehicle"), Some(b"rocket-1")), 0);
    assert_eq!(
        nominal_asset_create_set_property(&mut stagings, &mut err, staging, Some(b""), Some(b"x")),
        NominalErrorCode::InvalidArgument.code()
    );
    assert_eq!(err.message(), "key must not be empty");
    let request = nominal_asset_create_commit(&clients, &stagings, &mut err, client, staging, true).unwrap();
    assert_eq!(request.properties.unwrap(), vec![("vehicle".to_string(), "rocket-1".to_string())]);
}
