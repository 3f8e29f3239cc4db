use nominal_ffi::channel::{
    data_type_from_i32, nominal_channel_data_type, nominal_channel_get, nominal_channel_list, nominal_channel_name,
    nominal_channel_search, nominal_channel_set_metadata, nominal_channel_unit, ChannelRecord, NominalChannelDataType,
};
use nominal_ffi::client::ClientEntry;
use nominal_ffi::error::{LastError, NominalErrorCode};
use nominal_ffi::handles::{register, Registry};

const DATASET_RID: &str = "ri.catalog.cerulean-staging.dataset.00000000-0000-0000-0000-000000000002";

fn clients_with_one(err: &mut LastError) -> (Registry<ClientEntry<()>>, i32) {
    let mut clients = Registry::new();
    let entry = ClientEntry { payload: (), base_url: "http://127.0.0.1:1/api".to_string(), workspace_rid: None };
    let client = register(&mut clients, err, Ok(entry)).unwrap();
    (clients, client)
}

#[test]
fn search_rejects_invalid_data_type() {
    let mut err = LastError::new();
    let (clients, client) = clients_with_one(&mut err);
    for bad in [10, 11, -2] {
        assert_eq!(
            nominal_channel_search(&clients, &mut err, client, None, None, bad, true).unwrap_err(),
            NominalErrorCode::InvalidArgument.code(),
            "data_type {bad} must be rejected"
        );
    }
    assert_eq!(err.message(), "argument 'data_type' is not a valid channel data type: -2");
}

#[test]
fn set_metadata_rejects_unit_conflict_and_bad_type() {
    let mut err = LastError::new();
    let (clients, client) = clients_with_one(&mut err);

    // unit and clear_unit together.
    let code = nominal_channel_set_metadata(
        &clients,
        &mut err,
        client,
        Some(DATASET_RID.as_bytes()),
        Some(b"engine.temp"),
        0,
        None,
        Some(b"degC"),
        true,
        true,
    )
    .unwrap_err();
    assert_eq!(code, NominalErrorCode::InvalidArgument.code());
    assert!(err.message().contains("mutually exclusive"), "got: {}", err.message());

    // Unknown (10) is never a valid input.
    let code = nominal_channel_set_metadata(
        &clients,
        &mut err,
        client,
        Some(DATASET_RID.as_bytes()),
        Some(b"engine.temp"),
        10,
        None,
        None,
        false,
        true,
    )
    .unwrap_err();
    assert_eq!(code, NominalErrorCode::InvalidArgument.code());
}

#[test]
fn channel_calls_reject_invalid_handles() {
    let mut err = LastError::new();
    let clients: Registry<ClientEntry<()>> = Registry::new();
    assert_eq!(
        nominal_channel_list(&clients, &mut err, 0, Some(DATASET_RID.as_bytes()), true).unwrap_err(),
        NominalErrorCode::InvalidHandle.code()
    );
    let channels: Registry<ChannelRecord> = Registry::new();
    let out = nominal_channel_name(&channels, &mut err, 999_999_999, false, 0);
    assert_eq!(out.code, NominalErrorCode::InvalidHandle.code());
}

#[test]
fn data_type_numbers_round_trip() {
    let mut err = LastError::new();
    for v in 0..10 {
        let t = data_type_from_i32(&mut err, v, "data_type").unwrap();
        assert_eq!(t.code(), v);
    }
    assert_eq!(NominalChannelDataType::Unknown.code(), 10);
}

#[test]
fn search_and_metadata_requests() {
    let mut err = LastError::new();
    let (clients, client) = clients_with_one(&mut err);
    let query = nominal_channel_search(&clients, &mut err, client, Some(b""), Some(b"temp"), -1, true).unwrap();
    assert_eq!(query.data_source, None);
    assert_eq!(query.substring.as_deref(), Some("temp"));
    assert_eq!(query.data_type, None);
    let query = nominal_channel_search(&clients, &mut err, client, Some(DATASET_RID.as_bytes()), None, 3, true).unwrap();
    assert_eq!(query.data_type, Some(NominalChannelDataType::String));

    let request = nominal_channel_set_metadata(
        &clients,
        &mut err,
        client,
        Some(DATASET_RID.as_bytes()),
        Some(b"engine.temp"),
        0,
        Some(b"Engine temperature"),
        None,
        true,
        true,
    )
    .unwrap();
    assert_eq!(request.data_type, NominalChannelDataType::Double);
    assert_eq!(request.description.as_deref(), Some("Engine temperature"));
    assert!(request.clear_unit);

    let (rid, name) = nominal_channel_get(&clients, &mut err, client, Some(DATASET_RID.as_bytes()), Some(b"x"), true).unwrap();
    assert_eq!((rid.as_str(), name.as_str()), (DATASET_RID, "x"));
    assert_eq!(
        nominal_channel_get(&clients, &mut err, client, Some(DATASET_RID.as_bytes()), Some(b"x"), false).unwrap_err(),
        NominalErrorCode::NullArgument.code()
    );
    assert_eq!(err.message(), "out_channel must not be null");
}

#[test]
fn channel_getters() {
    let mut err = LastError::new();
    let mut channels = Registry::new();
    let channel = register(
        &mut channels,
        &mut err,
        Ok(ChannelRecord {
            name: "engine.temp".to_string(),
            data_source_rid: DATASET_RID.to_string(),
            description: None,
            unit: Some("degC".to_string()),
            data_type: NominalChannelDataType::Unknown,
        }),
    )
    .unwrap();
    assert_eq!(nominal_channel_data_type(&channels, &mut err, channel, true), Ok(10));
    let out = nominal_channel_unit(&channels, &mut err, channel, true, 16);
    assert_eq!(out.present, Some(true));
    assert_eq!(out.bytes.unwrap(), b"degC\0".to_vec());
}
