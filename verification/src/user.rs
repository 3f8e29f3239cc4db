//! `nominal_user_*`: the authenticated user.

use vstd::prelude::*;

use crate::actions::{check_client, client_step};
use crate::client::ClientEntry;
use crate::error::{LastError, NominalErrorCode};
use crate::fields::{fail_null, str_failed, str_getter};
use crate::handles::{failed_with, free_handle, invalid_handle_msg, lookup, outcome, Registry};
use crate::strings::{write_str_field, StrOut};

verus! {

/// A user as its getters report it.
#[derive(Debug)]
pub struct UserRecord {
    pub rid: String,
    pub org_rid: String,
    pub email: String,
    pub display_name: String,
}

/// Fetching the authenticated user: the client, then the out-parameter.
pub open spec fn user_me_step<C>(clients: Map<i32, C>, client: i32, out_present: bool) -> Result<(), (NominalErrorCode, Seq<char>)> {
    match client_step(clients, client) {
        Err(f) => Err(f),
        Ok(_) => if out_present {
            Ok(())
        } else {
            Err((NominalErrorCode::NullArgument, "out_user must not be null"@))
        },
    }
}

/// Checks fetching the authenticated user (the owner of the client's token).
pub fn nominal_user_me<C>(clients: &Registry<ClientEntry<C>>, err: &mut LastError, client: i32, out_present: bool) -> (r: Result<(), i32>)
    ensures
        outcome(user_me_step(clients@, client, out_present), r, old(err)@, final(err)@),
{
    match check_client(clients, err, client) {
        Ok(_) => {},
        Err(c) => {
            return Err(c);
        },
    }
    if !out_present {
        proof { reveal_strlit("out_user must not be null"); }
        return Err(fail_null(err, "out_user must not be null"));
    }
    Ok(())
}

/// Frees a user handle. Freeing twice returns an error.
pub fn nominal_user_free(users: &mut Registry<UserRecord>, err: &mut LastError, user: i32) -> (r: i32)
    ensures
        final(users)@ == old(users)@.remove(user),
        final(users).next_handle() == old(users).next_handle(),
        old(users)@.contains_key(user) ==> r == 0 && final(err)@ == old(err)@,
        !old(users)@.contains_key(user) ==> failed_with(
            r,
            final(err)@,
            (NominalErrorCode::InvalidHandle, invalid_handle_msg("user"@, user)),
        ),
{
    free_handle(users, err, user, "user")
}

/// Writes the user's RID into the caller buffer.
pub fn nominal_user_rid(users: &Registry<UserRecord>, err: &mut LastError, user: i32, buf_present: bool, cap: u32) -> (r: StrOut)
    ensures
        str_getter(users@, user, "user"@, |u: UserRecord| u.rid@, buf_present, cap, r, old(err)@, final(err)@),
{
    match lookup(users, err, user, "user") {
        Ok(u) => write_str_field(err, u.rid.as_str(), buf_present, cap as u64),
        Err(code) => str_failed(code),
    }
}

/// Writes the RID of the user's organization into the caller buffer.
pub fn nominal_user_org_rid(users: &Registry<UserRecord>, err: &mut LastError, user: i32, buf_present: bool, cap: u32) -> (r: StrOut)
    ensures
        str_getter(users@, user, "user"@, |u: UserRecord| u.org_rid@, buf_present, cap, r, old(err)@, final(err)@),
{
    match lookup(users, err, user, "user") {
        Ok(u) => write_str_field(err, u.org_rid.as_str(), buf_present, cap as u64),
        Err(code) => str_failed(code),
    }
}

/// Writes the user's email address into the caller buffer.
pub fn nominal_user_email(users: &Registry<UserRecord>, err: &mut LastError, user: i32, buf_present: bool, cap: u32) -> (r: StrOut)
    ensures
        str_getter(users@, user, "user"@, |u: UserRecord| u.email@, buf_present, cap, r, old(err)@, final(err)@),
{
    match lookup(users, err, user, "user") {
        Ok(u) => write_str_field(err, u.email.as_str(), buf_present, cap as u64),
        Err(code) => str_failed(code),
    }
}

/// Writes the user's display name into the caller buffer.
pub fn nominal_user_display_name(users: &Registry<UserRecord>, err: &mut LastError, user: i32, buf_present: bool, cap: u32) -> (r: StrOut)
    ensures
        str_getter(users@, user, "user"@, |u: UserRecord| u.display_name@, buf_present, cap, r, old(err)@, final(err)@),
{
    match lookup(users, err, user, "user") {
        Ok(u) => write_str_field(err, u.display_name.as_str(), buf_present, cap as u64),
        Err(code) => str_failed(code),
    }
}

} // verus!
