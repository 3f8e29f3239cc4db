use nominal_ffi::client::{
    nominal_client_base_url, nominal_client_free, nominal_client_new, nominal_client_new_from_profile,
    nominal_client_new_from_profile_env, nominal_client_workspace_rid, ClientEntry,
};
use nominal_ffi::error::{LastError, NominalErrorCode};
use nominal_ffi::handles::{register, Registry};
use nominal_ffi::strings::StrOut;

const WORKSPACE_RID: &str = "ri.security.cerulean-staging.workspace.00000000-0000-0000-0000-00000000aaaa";
const PRODUCTION_URL: &str = "https://api.gov.nominal.io/api";

/// Checks the arguments and registers the client the SDK would build from
/// them (no request is made when a client is built).
fn new_client(
    clients: &mut Registry<ClientEntry<()>>,
    err: &mut LastError,
    workspace_rid: Option<&str>,
    base_url: Option<&str>,
) -> Result<i32, i32> {
    let config = nominal_client_new(
        err,
        Some(b"test-token"),
        workspace_rid.map(|s| s.as_bytes()),
        base_url.map(|s| s.as_bytes()),
        true,
    )?;
    let entry = ClientEntry {
        payload: (),
        base_url: config.base_url.unwrap_or_else(|| PRODUCTION_URL.to_string()),
        workspace_rid: config.workspace_rid,
    };
    register(clients, err, Ok(entry))
}

fn text(out: StrOut) -> String {
    let needed = out.needed.unwrap() as usize;
    let bytes = out.bytes.unwrap();
    assert_eq!(bytes[needed], 0, "missing null terminator");
    String::from_utf8(bytes[..needed].to_vec()).unwrap()
}

fn query_workspace_rid(clients: &Registry<ClientEntry<()>>, err: &mut LastError, client: i32) -> (i32, u64, bool) {
    let out = nominal_client_workspace_rid(clients, err, client, false, 0);
    (out.code, out.needed.unwrap(), out.present.unwrap())
}

#[test]
fn client_lifecycle_and_getters() {
    let mut clients = Registry::new();
    let mut err = LastError::new();
    let client = new_client(&mut clients, &mut err, Some(WORKSPACE_RID), Some("http://127.0.0.1:1/api")).unwrap();
    assert!(client > 0);

    let needed = nominal_client_base_url(&clients, &mut err, client, false, 0).needed.unwrap();
    let base_url = text(nominal_client_base_url(&clients, &mut err, client, true, needed as u32 + 1));
    assert_eq!(base_url, "http://127.0.0.1:1/api");

    let (code, needed, is_present) = query_workspace_rid(&clients, &mut err, client);
    assert_eq!(code, 0);
    assert_eq!(needed, WORKSPACE_RID.len() as u64);
    assert!(is_present);

    assert_eq!(nominal_client_free(&mut clients, &mut err, client), 0);
    assert_eq!(
        nominal_client_free(&mut clients, &mut err, client),
        NominalErrorCode::InvalidHandle.code(),
        "double free must fail"
    );
    assert!(err.message().contains("invalid client handle"));
}

#[test]
fn absent_workspace_rid_reports_not_present() {
    let mut clients = Registry::new();
    let mut err = LastError::new();
    let client = new_client(&mut clients, &mut err, None, None).unwrap();
    let (code, needed, is_present) = query_workspace_rid(&clients, &mut err, client);
    assert_eq!((code, needed, is_present), (0, 0, false));

    // Empty string means absent too.
    nominal_client_free(&mut clients, &mut err, client);
    let client = new_client(&mut clients, &mut err, Some(""), None).unwrap();
    let (code, needed, is_present) = query_workspace_rid(&clients, &mut err, client);
    assert_eq!((code, needed, is_present), (0, 0, false));
    nominal_client_free(&mut clients, &mut err, client);
}

#[test]
fn too_small_buffer_reports_needed_bytes() {
    let mut clients = Registry::new();
    let mut err = LastError::new();
    let client = new_client(&mut clients, &mut err, None, Some("http://127.0.0.1:1/api")).unwrap();

    let out = nominal_client_base_url(&clients, &mut err, client, true, 4);
    assert_eq!(out.code, NominalErrorCode::BufferTooSmall.code());
    assert_eq!(out.needed.unwrap(), "http://127.0.0.1:1/api".len() as u64);
    assert!(out.bytes.is_none(), "buffer must be untouched when too small");

    nominal_client_free(&mut clients, &mut err, client);
}

#[test]
fn null_token_is_rejected() {
    let mut err = LastError::new();
    let code = nominal_client_new(&mut err, None, None, None, true).unwrap_err();
    assert_eq!(code, NominalErrorCode::NullArgument.code());
    assert!(err.message().contains("token"), "got: {}", err.message());
}

#[test]
fn null_out_param_is_rejected() {
    let mut err = LastError::new();
    let code = nominal_client_new(&mut err, Some(b"test-token"), None, None, false).unwrap_err();
    assert_eq!(code, NominalErrorCode::NullArgument.code());
}

#[test]
fn getters_reject_invalid_handles() {
    let clients: Registry<ClientEntry<()>> = Registry::new();
    let mut err = LastError::new();
    for handle in [0i32, -1, 999_999_999] {
        let out = nominal_client_base_url(&clients, &mut err, handle, false, 0);
        assert_eq!(out.code, NominalErrorCode::InvalidHandle.code());
        assert!(out.needed.is_none());
    }
    assert_eq!(err.message(), "invalid client handle: 999999999");
}

#[test]
fn profile_constructors_check_their_arguments() {
    let mut err = LastError::new();
    assert_eq!(
        nominal_client_new_from_profile(&mut err, Some(b""), true).unwrap_err(),
        NominalErrorCode::InvalidArgument.code()
    );
    assert_eq!(err.message(), "name must not be empty");
    assert_eq!(
        nominal_client_new_from_profile(&mut err, Some(b"dev"), false).unwrap_err(),
        NominalErrorCode::NullArgument.code()
    );
    assert_eq!(err.message(), "out_client must not be null");
    assert_eq!(nominal_client_new_from_profile(&mut err, Some(b"dev"), true).unwrap(), "dev");
    assert!(nominal_client_new_from_profile_env(&mut err, true).is_ok());
    assert_eq!(
        nominal_client_new_from_profile_env(&mut err, false).unwrap_err(),
        NominalErrorCode::NullArgument.code()
    );
}

#[test]
fn client_config_carries_arguments() {
    let mut err = LastError::new();
    let config = nominal_client_new(&mut err, Some(b"tok"), Some(b""), Some(b"http://h/api"), true).unwrap();
    assert_eq!(config.token, "tok");
    assert_eq!(config.workspace_rid, None);
    assert_eq!(config.base_url, Some("http://h/api".to_string()));
    let code = nominal_client_new(&mut err, Some(b"tok"), Some(&[0xC3u8]), None, true).unwrap_err();
    assert_eq!(code, NominalErrorCode::InvalidUtf8.code());
    assert_eq!(err.message(), "argument 'workspace_rid' is not valid UTF-8");
}
