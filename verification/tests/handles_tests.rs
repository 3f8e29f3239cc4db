use nominal_ffi::asset::{nominal_asset_create_begin, nominal_asset_create_free};
use nominal_ffi::error::nominal_last_error;
use nominal_ffi::error::{LastError, NominalErrorCode, SdkErrorKind, SdkFailure};
use nominal_ffi::handles::{
    finish_unit, free_handle, lookup, nominal_handle_list_count, nominal_handle_list_free, nominal_handle_list_get,
    register, register_all, Registry,
};
use nominal_ffi::sorted::SortedMap;
use nominal_ffi::time::{ms_to_datetime, MillisArg, MAX_TIMESTAMP_MILLIS, MIN_TIMESTAMP_MILLIS};

#[test]
fn handles_start_at_one_and_are_never_reused() {
    let mut reg = Registry::new();
    let mut err = LastError::new();
    let a = register(&mut reg, &mut err, Ok("a")).unwrap();
    let b = register(&mut reg, &mut err, Ok("b")).unwrap();
    assert_eq!((a, b), (1, 2));
    assert_eq!(free_handle(&mut reg, &mut err, a, "thing"), 0);
    let c = register(&mut reg, &mut err, Ok("c")).unwrap();
    assert_eq!(c, 3, "a freed handle is not issued again");
    assert_eq!(*lookup(&reg, &mut err, b, "thing").unwrap(), "b");
    assert_eq!(lookup(&reg, &mut err, a, "thing").unwrap_err(), NominalErrorCode::InvalidHandle.code());
    assert_eq!(err.message(), "invalid thing handle: 1");
    assert_eq!(free_handle(&mut reg, &mut err, a, "thing"), NominalErrorCode::InvalidHandle.code());
}

#[test]
fn sdk_failures_register_nothing() {
    let mut reg: Registry<&str> = Registry::new();
    let mut err = LastError::new();
    let failure = SdkFailure { kind: SdkErrorKind::NotFound, message: "asset not found".to_string() };
    assert_eq!(register(&mut reg, &mut err, Err(failure)), Err(NominalErrorCode::NotFound.code()));
    assert_eq!(err.message(), "asset not found");
    assert_eq!(register(&mut reg, &mut err, Ok("x")), Ok(1));
    let failure = SdkFailure { kind: SdkErrorKind::InvalidServiceUrl, message: "bad url".to_string() };
    assert_eq!(finish_unit(&mut err, Err(failure)), NominalErrorCode::InvalidArgument.code());
    assert_eq!(finish_unit(&mut err, Ok(())), 0);
}

#[test]
fn handle_lists_keep_order_and_outlive_nothing() {
    let mut reg = Registry::new();
    let mut lists = Registry::new();
    let mut err = LastError::new();
    let (list, count) = register_all(&mut reg, &mut lists, &mut err, Ok(vec!["x", "y", "z"])).unwrap();
    assert_eq!(count, 3);
    let handles: Vec<i32> = (0..3).map(|i| nominal_handle_list_get(&lists, &mut err, list, i, true).unwrap()).collect();
    assert_eq!(handles, vec![1, 2, 3]);
    assert_eq!(nominal_handle_list_get(&lists, &mut err, list, 3, true), Err(NominalErrorCode::IndexOutOfRange.code()));
    assert_eq!(err.message(), "index 3 out of range for collection of 3");
    assert_eq!(nominal_handle_list_get(&lists, &mut err, list, 0, false), Err(NominalErrorCode::NullArgument.code()));
    assert_eq!(err.message(), "out_handle must not be null");
    assert_eq!(nominal_handle_list_free(&mut lists, &mut err, list), 0);
    assert_eq!(nominal_handle_list_count(&lists, &mut err, list, true), Err(NominalErrorCode::InvalidHandle.code()));
    assert_eq!(err.message(), format!("invalid handle list handle: {list}"));
    // The objects stay registered after their list is freed.
    assert_eq!(*lookup(&reg, &mut err, handles[2], "thing").unwrap(), "z");
    let (empty, n) = register_all(&mut reg, &mut lists, &mut err, Ok(Vec::<&str>::new())).unwrap();
    assert_eq!(n, 0);
    assert_eq!(nominal_handle_list_count(&lists, &mut err, empty, true), Ok(0));
}

#[test]
fn sorted_map_orders_by_bytes_and_last_value_wins() {
    let map = SortedMap::from_pairs(vec![
        ("b".to_string(), "1".to_string()),
        ("a".to_string(), "2".to_string()),
        ("B".to_string(), "3".to_string()),
        ("b".to_string(), "4".to_string()),
    ]);
    assert_eq!(
        map.pairs(),
        vec![("B".to_string(), "3".to_string()), ("a".to_string(), "2".to_string()), ("b".to_string(), "4".to_string())]
    );
    assert_eq!(map.find("a"), Some(1));
    assert_eq!(map.find("c"), None);
}

fn millis(ms: f64) -> MillisArg {
    MillisArg { rounded: if ms.is_finite() { Some(ms.round() as i64) } else { None }, shown: format!("{ms}") }
}

#[test]
fn timestamp_range_matches_chrono() {
    let mut err = LastError::new();
    assert_eq!(ms_to_datetime(&mut err, &millis(1_705_314_600_500.4), "t"), Ok(1_705_314_600_500));
    let lowest = MillisArg { rounded: Some(MIN_TIMESTAMP_MILLIS), shown: "low".to_string() };
    assert_eq!(ms_to_datetime(&mut err, &lowest, "t"), Ok(MIN_TIMESTAMP_MILLIS));
    let highest = MillisArg { rounded: Some(MAX_TIMESTAMP_MILLIS), shown: "high".to_string() };
    assert_eq!(ms_to_datetime(&mut err, &highest, "t"), Ok(MAX_TIMESTAMP_MILLIS));
    let below = MillisArg { rounded: Some(MIN_TIMESTAMP_MILLIS - 1), shown: "below".to_string() };
    assert_eq!(ms_to_datetime(&mut err, &below, "t"), Err(NominalErrorCode::InvalidArgument.code()));
    assert_eq!(err.message(), "argument 't' is out of timestamp range: below");
    let above = MillisArg { rounded: Some(MAX_TIMESTAMP_MILLIS + 1), shown: "above".to_string() };
    assert_eq!(ms_to_datetime(&mut err, &above, "t"), Err(NominalErrorCode::InvalidArgument.code()));
}

#[test]
fn timestamp_bounds_are_the_first_and_last_millisecond_chrono_represents() {
    // January 1 of year -262143, 00:00:00.000 UTC, and December 31 of year
    // 262142, 23:59:59.999 UTC. Each value goes through chrono's own
    // `from_timestamp_millis`.
    assert_eq!(MIN_TIMESTAMP_MILLIS, -8_334_601_228_800_000);
    assert_eq!(MAX_TIMESTAMP_MILLIS, 8_210_266_876_799_999);
    let mut err = LastError::new();
    for ms in [-8_334_601_228_800_000i64, -8_334_601_228_799_999, 0, 8_210_266_876_799_998, 8_210_266_876_799_999] {
        let arg = MillisArg { rounded: Some(ms), shown: ms.to_string() };
        assert_eq!(ms_to_datetime(&mut err, &arg, "t"), Ok(ms), "{ms} is representable");
    }
    for ms in [-8_334_601_315_200_000i64, -8_334_601_228_800_001, 8_210_266_876_800_000, i64::MIN, i64::MAX] {
        let arg = MillisArg { rounded: Some(ms), shown: ms.to_string() };
        assert_eq!(ms_to_datetime(&mut err, &arg, "t"), Err(NominalErrorCode::InvalidArgument.code()), "{ms} is not");
    }
}

#[test]
fn failed_begin_keeps_the_next_handle_and_begins_never_reuse() {
    let mut stagings = Registry::new();
    let mut err = LastError::new();
    let refused = nominal_asset_create_begin(&mut stagings, &mut err, Some(b"Flight 43"), false);
    assert_eq!(refused, Err(NominalErrorCode::NullArgument.code()));
    assert!(nominal_last_error(&err, false, 0).0 > 0, "a failure leaves a message");
    let first = nominal_asset_create_begin(&mut stagings, &mut err, Some(b"Flight 43"), true).unwrap();
    assert_eq!(first, 1);
    assert_eq!(nominal_asset_create_free(&mut stagings, &mut err, first), 0);
    let second = nominal_asset_create_begin(&mut stagings, &mut err, Some(b"Flight 44"), true).unwrap();
    assert_eq!(second, 2, "a freed staging handle is not issued again");
    let empty = nominal_asset_create_begin(&mut stagings, &mut err, Some(b""), true);
    assert_eq!(empty, Err(NominalErrorCode::InvalidArgument.code()));
    assert_eq!(err.message(), "name must not be empty");
    assert!(nominal_last_error(&err, false, 0).0 > 0);
}
