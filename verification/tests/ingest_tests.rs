use nominal_ffi::client::ClientEntry;
use nominal_ffi::error::{LastError, NominalErrorCode, SdkErrorKind, SdkFailure};
use nominal_ffi::handles::{register, Registry};
use nominal_ffi::ingest::{
    nominal_ingest_csv, nominal_ingest_job_get, nominal_ingest_job_result_rid, nominal_ingest_job_rid,
    nominal_ingest_job_status, nominal_ingest_job_wait_poll, nominal_ingest_parquet,
    nominal_ingest_tabular_add_file_tag, nominal_ingest_tabular_add_tag_column, nominal_ingest_tabular_begin,
    nominal_ingest_tabular_exclude_column, nominal_ingest_tabular_free, nominal_ingest_tabular_set_channel_prefix,
    nominal_ingest_tabular_set_is_archive, nominal_ingest_tabular_set_timestamp_custom,
    nominal_ingest_tabular_set_timestamp_epoch, nominal_ingest_tabular_set_timestamp_relative, IngestJobRecord,
    NominalIngestJobStatus, NominalTimeUnit, TabularFormat, TimestampSpec, WaitAction,
};
use nominal_ffi::time::MillisArg;

const DATASET_RID: &str = "ri.catalog.cerulean-staging.dataset.00000000-0000-0000-0000-000000000002";
const JOB_RID: &str = "ri.ingest.cerulean-staging.ingest-job.00000000-0000-0000-0000-000000000042";

fn clients_with_one(err: &mut LastError) -> (Registry<ClientEntry<()>>, i32) {
    let mut clients = Registry::new();
    let entry = ClientEntry { payload: (), base_url: "http://127.0.0.1:1/api".to_string(), workspace_rid: None };
    let client = register(&mut clients, err, Ok(entry)).unwrap();
    (clients, client)
}

fn millis(ms: f64) -> MillisArg {
    MillisArg { rounded: if ms.is_finite() { Some(ms.round() as i64) } else { None }, shown: format!("{ms}") }
}

#[test]
fn csv_requires_a_timestamp_spec() {
    let mut err = LastError::new();
    let (clients, client) = clients_with_one(&mut err);
    let mut stagings = Registry::new();
    let staging = nominal_ingest_tabular_begin(&mut stagings, &mut err, true).unwrap();
    let code = nominal_ingest_csv(
        &clients,
        &stagings,
        &mut err,
        client,
        staging,
        Some(b"/tmp/no_ts.csv"),
        Some(DATASET_RID.as_bytes()),
        true,
    )
    .unwrap_err();
    assert_eq!(code, NominalErrorCode::InvalidArgument.code());
    assert!(err.message().contains("timestamp"), "got: {}", err.message());
    nominal_ingest_tabular_free(&mut stagings, &mut err, staging);
}

#[test]
fn csv_rejects_is_archive() {
    let mut err = LastError::new();
    let (clients, client) = clients_with_one(&mut err);
    let mut stagings = Registry::new();
    let staging = nominal_ingest_tabular_begin(&mut stagings, &mut err, true).unwrap();
    assert_eq!(nominal_ingest_tabular_set_timestamp_epoch(&mut stagings, &mut err, staging, Some(b"time"), 3), 0);
    assert_eq!(nominal_ingest_tabular_set_is_archive(&mut stagings, &mut err, staging, true), 0);
    let code = nominal_ingest_csv(
        &clients,
        &stagings,
        &mut err,
        client,
        staging,
        Some(b"/tmp/archive.csv"),
        Some(DATASET_RID.as_bytes()),
        true,
    )
    .unwrap_err();
    assert_eq!(code, NominalErrorCode::InvalidArgument.code());
    assert!(err.message().contains("parquet"), "got: {}", err.message());
    nominal_ingest_tabular_free(&mut stagings, &mut err, staging);
}

#[test]
fn invalid_time_unit_is_rejected() {
    let mut err = LastError::new();
    let mut stagings = Registry::new();
    let staging = nominal_ingest_tabular_begin(&mut stagings, &mut err, true).unwrap();
    assert_eq!(
        nominal_ingest_tabular_set_timestamp_epoch(&mut stagings, &mut err, staging, Some(b"time"), 7),
        NominalErrorCode::InvalidArgument.code()
    );
    assert_eq!(err.message(), "argument 'time_unit' is not a valid time unit: 7");
    nominal_ingest_tabular_free(&mut stagings, &mut err, staging);
}

#[test]
fn ingest_calls_reject_invalid_handles() {
    let mut err = LastError::new();
    let mut stagings = Registry::new();
    assert_eq!(
        nominal_ingest_tabular_set_timestamp_epoch(&mut stagings, &mut err, 0, Some(b"time"), 3),
        NominalErrorCode::InvalidHandle.code()
    );
    let clients: Registry<ClientEntry<()>> = Registry::new();
    assert_eq!(
        nominal_ingest_job_get(&clients, &mut err, 987_654_321, Some(JOB_RID.as_bytes()), true).unwrap_err(),
        NominalErrorCode::InvalidHandle.code()
    );
    let jobs: Registry<IngestJobRecord> = Registry::new();
    let out = nominal_ingest_job_rid(&jobs, &mut err, 0, false, 0);
    assert_eq!(out.code, NominalErrorCode::InvalidHandle.code());
    assert_eq!(err.message(), "invalid ingest-job handle: 0");
}

#[test]
fn parquet_request_carries_every_option() {
    let mut err = LastError::new();
    let (clients, client) = clients_with_one(&mut err);
    let mut stagings = Registry::new();
    let staging = nominal_ingest_tabular_begin(&mut stagings, &mut err, true).unwrap();
    assert_eq!(
        nominal_ingest_tabular_set_timestamp_custom(&mut stagings, &mut err, staging, Some(b"t"), Some(b"DDD:HH:mm:ss"), 2024, 0),
        0
    );
    assert_eq!(nominal_ingest_tabular_set_channel_prefix(&mut stagings, &mut err, staging, Some(b"car.")), 0);
    assert_eq!(nominal_ingest_tabular_add_tag_column(&mut stagings, &mut err, staging, Some(b"vehicle"), Some(b"veh")), 0);
    assert_eq!(nominal_ingest_tabular_add_file_tag(&mut stagings, &mut err, staging, Some(b"site"), Some(b"b")), 0);
    assert_eq!(nominal_ingest_tabular_add_file_tag(&mut stagings, &mut err, staging, Some(b"run"), Some(b"7")), 0);
    assert_eq!(nominal_ingest_tabular_add_file_tag(&mut stagings, &mut err, staging, Some(b"site"), Some(b"a")), 0);
    assert_eq!(nominal_ingest_tabular_exclude_column(&mut stagings, &mut err, staging, Some(b"junk")), 0);
    assert_eq!(nominal_ingest_tabular_exclude_column(&mut stagings, &mut err, staging, Some(b"debug")), 0);
    assert_eq!(nominal_ingest_tabular_exclude_column(&mut stagings, &mut err, staging, Some(b"junk")), 0);
    assert_eq!(nominal_ingest_tabular_set_is_archive(&mut stagings, &mut err, staging, true), 0);
    let request = nominal_ingest_parquet(
        &clients,
        &stagings,
        &mut err,
        client,
        staging,
        Some(b"/data/file.tar"),
        Some(DATASET_RID.as_bytes()),
        true,
    )
    .unwrap();
    assert_eq!(request.format, TabularFormat::Parquet);
    assert_eq!(request.file_path, "/data/file.tar");
    assert!(matches!(
        &request.timestamp,
        TimestampSpec::Custom { column, format, default_year: Some(2024), default_day_of_year: None }
            if column == "t" && format == "DDD:HH:mm:ss"
    ));
    assert_eq!(request.channel_prefix.as_deref(), Some("car."));
    assert_eq!(request.tag_columns, vec![("vehicle".to_string(), "veh".to_string())]);
    assert_eq!(
        request.file_tags,
        vec![("run".to_string(), "7".to_string()), ("site".to_string(), "a".to_string())]
    );
    assert_eq!(request.exclude_columns, vec!["debug".to_string(), "junk".to_string()]);
    assert_eq!(request.is_archive, Some(true));
}

#[test]
fn tabular_setters_check_arguments() {
    let mut err = LastError::new();
    let mut stagings = Registry::new();
    let staging = nominal_ingest_tabular_begin(&mut stagings, &mut err, true).unwrap();
    assert_eq!(
        nominal_ingest_tabular_set_channel_prefix(&mut stagings, &mut err, staging, Some(b"")),
        NominalErrorCode::InvalidArgument.code()
    );
    assert_eq!(err.message(), "prefix must not be empty");
    assert_eq!(
        nominal_ingest_tabular_add_tag_column(&mut stagings, &mut err, staging, Some(b""), Some(b"c")),
        NominalErrorCode::InvalidArgument.code()
    );
    assert_eq!(err.message(), "tag must not be empty");
    assert_eq!(
        nominal_ingest_tabular_exclude_column(&mut stagings, &mut err, staging, Some(b"")),
        NominalErrorCode::InvalidArgument.code()
    );
    assert_eq!(err.message(), "column must not be empty");
    assert_eq!(
        nominal_ingest_tabular_set_timestamp_relative(&mut stagings, &mut err, staging, Some(b"t"), 2, &millis(f64::NAN), true),
        NominalErrorCode::InvalidArgument.code()
    );
    assert_eq!(err.message(), "argument 'offset_ms' must be a finite Unix-millisecond timestamp, got NaN");
    assert_eq!(
        nominal_ingest_tabular_set_timestamp_relative(&mut stagings, &mut err, staging, Some(b"t"), 2, &millis(f64::NAN), false),
        0
    );
    assert_eq!(nominal_ingest_tabular_begin(&mut stagings, &mut err, false).unwrap_err(), NominalErrorCode::NullArgument.code());
    assert_eq!(err.message(), "out_staging must not be null");
    let _ = NominalTimeUnit::Days;
}

#[test]
fn job_wait_returns_terminal_failed_without_erroring() {
    let mut err = LastError::new();
    let mut jobs = Registry::new();
    let running = IngestJobRecord { rid: JOB_RID.to_string(), status: NominalIngestJobStatus::InProgress, result_rid: None };
    assert!(matches!(nominal_ingest_job_wait_poll(&mut jobs, &mut err, Ok(running)), WaitAction::PollAgain));
    let failed = IngestJobRecord { rid: JOB_RID.to_string(), status: NominalIngestJobStatus::Failed, result_rid: None };
    let job = match nominal_ingest_job_wait_poll(&mut jobs, &mut err, Ok(failed)) {
        WaitAction::Finish(Ok(h)) => h,
        other => panic!("unexpected: {other:?}"),
    };
    assert_eq!(nominal_ingest_job_status(&jobs, &mut err, job, true), Ok(4));
    let out = nominal_ingest_job_result_rid(&jobs, &mut err, job, false, 0);
    assert_eq!((out.code, out.needed, out.present), (0, Some(0), Some(false)));
}

#[test]
fn job_wait_stops_on_fetch_error() {
    let mut err = LastError::new();
    let mut jobs = Registry::new();
    let fetched = Err(SdkFailure { kind: SdkErrorKind::NotFound, message: "job not found".to_string() });
    assert!(matches!(nominal_ingest_job_wait_poll(&mut jobs, &mut err, fetched), WaitAction::Finish(Err(7))));
    assert_eq!(err.message(), "job not found");
}

#[test]
fn terminal_statuses() {
    for (status, terminal, code) in [
        (NominalIngestJobStatus::Submitted, false, 0),
        (NominalIngestJobStatus::Queued, false, 1),
        (NominalIngestJobStatus::InProgress, false, 2),
        (NominalIngestJobStatus::Completed, true, 3),
        (NominalIngestJobStatus::Failed, true, 4),
        (NominalIngestJobStatus::Cancelled, true, 5),
        (NominalIngestJobStatus::Unknown, true, 6),
    ] {
        assert_eq!(status.is_terminal(), terminal);
        assert_eq!(status.code(), code);
    }
}
