use nominal_ffi::client::ClientEntry;
use nominal_ffi::error::{LastError, NominalErrorCode};
use nominal_ffi::handles::{register, Registry};
use nominal_ffi::user::{nominal_user_email, nominal_user_free, nominal_user_me, UserRecord};
use nominal_ffi::workspace::{nominal_workspace_display_name, nominal_workspace_list, nominal_workspace_rid, WorkspaceRecord};

#[test]
fn user_workspace_calls_reject_invalid_handles() {
    let mut err = LastError::new();
    let clients: Registry<ClientEntry<()>> = Registry::new();
    assert_eq!(nominal_user_me(&clients, &mut err, 0, true).unwrap_err(), NominalErrorCode::InvalidHandle.code());
    let users: Registry<UserRecord> = Registry::new();
    assert_eq!(nominal_user_email(&users, &mut err, 999_999_999, false, 0).code, NominalErrorCode::InvalidHandle.code());
    let workspaces: Registry<WorkspaceRecord> = Registry::new();
    assert_eq!(
        nominal_workspace_rid(&workspaces, &mut err, 999_999_998, false, 0).code,
        NominalErrorCode::InvalidHandle.code()
    );
}

#[test]
fn user_and_workspace_records() {
    let mut err = LastError::new();
    let mut clients = Registry::new();
    let client = register(
        &mut clients,
        &mut err,
        Ok(ClientEntry { payload: (), base_url: String::new(), workspace_rid: None }),
    )
    .unwrap();
    assert!(nominal_user_me(&clients, &mut err, client, true).is_ok());
    assert_eq!(nominal_user_me(&clients, &mut err, client, false).unwrap_err(), NominalErrorCode::NullArgument.code());
    assert_eq!(err.message(), "out_user must not be null");
    assert_eq!(
        nominal_workspace_list(&clients, &mut err, client, false).unwrap_err(),
        NominalErrorCode::NullArgument.code()
    );
    assert_eq!(err.message(), "out_list and out_count must not be null");

    let mut users = Registry::new();
    let user = register(
        &mut users,
        &mut err,
        Ok(UserRecord {
            rid: "ri.user.1".to_string(),
            org_rid: "ri.org.1".to_string(),
            email: "a@b.c".to_string(),
            display_name: "A".to_string(),
        }),
    )
    .unwrap();
    assert_eq!(nominal_user_email(&users, &mut err, user, true, 16).bytes.unwrap(), b"a@b.c\0".to_vec());
    assert_eq!(nominal_user_free(&mut users, &mut err, user), 0);

    let mut workspaces = Registry::new();
    let ws = register(&mut workspaces, &mut err, Ok(WorkspaceRecord { rid: "ri.ws.1".to_string(), display_name: None })).unwrap();
    let out = nominal_workspace_display_name(&workspaces, &mut err, ws, false, 0);
    assert_eq!((out.code, out.needed, out.present), (0, Some(0), Some(false)));
}
