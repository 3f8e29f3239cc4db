//! `nominal_client_*`: creating and freeing clients, and reading a
//! client's configuration back.
//!
//! A client is made from an explicit token (the primary path) or from a
//! profile of the `nominal` CLI's config file. Constructing one sends no
//! request: a bad token fails on the first request made with it.

use vstd::prelude::*;

use crate::error::{LastError, NominalErrorCode};
use crate::fields::{fail_null, opt_str_getter, str_failed, str_getter, write_opt_string};
use crate::handles::{free_handle, lookup, failed_with, invalid_handle_msg, outcome, Registry};
use crate::staging::{nonempty_step, opt_view, optional_step, read_nonempty_str, read_optional, read_required, required_step};
use crate::strings::{arg_view, write_str_field, StrOut};

verus! {

/// A client as the bridge keeps it: the SDK's client object and the
/// configuration its getters report.
#[derive(Debug)]
pub struct ClientEntry<C> {
    pub payload: C,
    pub base_url: String,
    pub workspace_rid: Option<String>,
}

/// What a new client is built from.
#[derive(Debug)]
pub struct ClientConfig {
    pub token: String,
    /// Absent: the token's default workspace.
    pub workspace_rid: Option<String>,
    /// Absent: the production API.
    pub base_url: Option<String>,
}

/// A client configuration, as the spec sees it.
pub struct ClientConfigView {
    pub token: Seq<char>,
    pub workspace_rid: Option<Seq<char>>,
    pub base_url: Option<Seq<char>>,
}

impl View for ClientConfig {
    type V = ClientConfigView;

    open spec fn view(&self) -> ClientConfigView {
        ClientConfigView {
            token: self.token@,
            workspace_rid: opt_view(self.workspace_rid),
            base_url: opt_view(self.base_url),
        }
    }
}

/// Creating a client: the (required) token, the optional workspace RID and
/// base URL, then the out-parameter.
pub open spec fn client_new_step(
    token: Option<Seq<u8>>,
    workspace_rid: Option<Seq<u8>>,
    base_url: Option<Seq<u8>>,
    out_present: bool,
) -> Result<ClientConfigView, (NominalErrorCode, Seq<char>)> {
    match required_step(token, "token"@) {
        Err(f) => Err(f),
        Ok(t) => match optional_step(workspace_rid, "workspace_rid"@) {
            Err(f) => Err(f),
            Ok(w) => match optional_step(base_url, "base_url"@) {
                Err(f) => Err(f),
                Ok(b) => if out_present {
                    Ok(ClientConfigView { token: t, workspace_rid: w, base_url: b })
                } else {
                    Err((NominalErrorCode::NullArgument, "out_client must not be null"@))
                },
            },
        },
    }
}

/// Checks the arguments of a new client and yields its configuration. The
/// host layer builds the client and registers it.
pub fn nominal_client_new(
    err: &mut LastError,
    token: Option<&[u8]>,
    workspace_rid: Option<&[u8]>,
    base_url: Option<&[u8]>,
    out_present: bool,
) -> (r: Result<ClientConfig, i32>)
    ensures
        outcome(client_new_step(arg_view(token), arg_view(workspace_rid), arg_view(base_url), out_present), r, old(err)@, final(err)@),
{
    let token = match read_required(err, token, "token") {
        Ok(t) => t,
        Err(c) => {
            return Err(c);
        },
    };
    let workspace_rid = match read_optional(err, workspace_rid, "workspace_rid") {
        Ok(w) => w,
        Err(c) => {
            return Err(c);
        },
    };
    let base_url = match read_optional(err, base_url, "base_url") {
        Ok(b) => b,
        Err(c) => {
            return Err(c);
        },
    };
    if !out_present {
        proof { reveal_strlit("out_client must not be null"); }
        return Err(fail_null(err, "out_client must not be null"));
    }
    Ok(ClientConfig { token, workspace_rid, base_url })
}

/// Creating a client from a named profile: the (required, not empty) name,
/// then the out-parameter.
pub open spec fn from_profile_step(name: Option<Seq<u8>>, out_present: bool) -> Result<Seq<char>, (NominalErrorCode, Seq<char>)> {
    match nonempty_step(name, "name"@) {
        Err(f) => Err(f),
        Ok(n) => if out_present {
            Ok(n)
        } else {
            Err((NominalErrorCode::NullArgument, "out_client must not be null"@))
        },
    }
}

/// Checks the arguments of a client made from a named profile and yields
/// the profile name.
pub fn nominal_client_new_from_profile(err: &mut LastError, name: Option<&[u8]>, out_present: bool) -> (r: Result<String, i32>)
    ensures
        outcome(from_profile_step(arg_view(name), out_present), r, old(err)@, final(err)@),
{
    let name = match read_nonempty_str(err, name, "name") {
        Ok(n) => n,
        Err(c) => {
            return Err(c);
        },
    };
    if !out_present {
        proof { reveal_strlit("out_client must not be null"); }
        return Err(fail_null(err, "out_client must not be null"));
    }
    Ok(name)
}

/// Checks the arguments of a client made from the profile the environment
/// names.
pub fn nominal_client_new_from_profile_env(err: &mut LastError, out_present: bool) -> (r: Result<(), i32>)
    ensures
        out_present ==> r == Ok::<(), i32>(()) && final(err)@ == old(err)@,
        !out_present ==> (r matches Err(c) && failed_with(
            c,
            final(err)@,
            (NominalErrorCode::NullArgument, "out_client must not be null"@),
        )),
{
    if !out_present {
        proof { reveal_strlit("out_client must not be null"); }
        return Err(fail_null(err, "out_client must not be null"));
    }
    Ok(())
}

/// Frees a client handle. Resource handles obtained through the client stay
/// valid: they hold their own data.
pub fn nominal_client_free<C>(clients: &mut Registry<ClientEntry<C>>, err: &mut LastError, client: i32) -> (r: i32)
    ensures
        final(clients)@ == old(clients)@.remove(client),
        final(clients).next_handle() == old(clients).next_handle(),
        old(clients)@.contains_key(client) ==> r == 0 && final(err)@ == old(err)@,
        !old(clients)@.contains_key(client) ==> failed_with(
            r,
            final(err)@,
            (NominalErrorCode::InvalidHandle, invalid_handle_msg("client"@, client)),
        ),
{
    free_handle(clients, err, client, "client")
}

/// Writes the client's API base URL into the caller buffer.
pub fn nominal_client_base_url<C>(clients: &Registry<ClientEntry<C>>, err: &mut LastError, client: i32, buf_present: bool, cap: u32) -> (r: StrOut)
    ensures
        str_getter(clients@, client, "client"@, |c: ClientEntry<C>| c.base_url@, buf_present, cap, r, old(err)@, final(err)@),
{
    match lookup(clients, err, client, "client") {
        Ok(c) => write_str_field(err, c.base_url.as_str(), buf_present, cap as u64),
        Err(code) => str_failed(code),
    }
}

/// Writes the client's workspace RID into the caller buffer and whether one
/// is configured (an absent workspace reports 0 bytes needed).
pub fn nominal_client_workspace_rid<C>(
    clients: &Registry<ClientEntry<C>>,
    err: &mut LastError,
    client: i32,
    buf_present: bool,
    cap: u32,
) -> (r: StrOut)
    ensures
        opt_str_getter(clients@, client, "client"@, |c: ClientEntry<C>| opt_view(c.workspace_rid), buf_present, cap, r, old(err)@, final(err)@),
{
    match lookup(clients, err, client, "client") {
        Ok(c) => write_opt_string(err, &c.workspace_rid, buf_present, cap),
        Err(code) => str_failed(code),
    }
}

} // verus!
