//! `nominal_workspace_*`: the workspaces the authenticated user can
//! access.

use vstd::prelude::*;

use crate::actions::{list_action, list_step};
use crate::client::ClientEntry;
use crate::error::{LastError, NominalErrorCode};
use crate::fields::{opt_str_getter, str_failed, str_getter, write_opt_string};
use crate::handles::{failed_with, free_handle, invalid_handle_msg, lookup, outcome, Registry};
use crate::staging::opt_view;
use crate::strings::{write_str_field, StrOut};

verus! {

/// A workspace as its getters report it.
#[derive(Debug)]
pub struct WorkspaceRecord {
    pub rid: String,
    pub display_name: Option<String>,
}

/// Checks listing the workspaces the authenticated user can access.
pub fn nominal_workspace_list<C>(clients: &Registry<ClientEntry<C>>, err: &mut LastError, client: i32, outs_present: bool) -> (r: Result<(), i32>)
    ensures
        outcome(list_step(clients@, client, outs_present), r, old(err)@, final(err)@),
{
    list_action(clients, err, client, outs_present)
}

/// Frees a workspace handle. Freeing twice returns an error.
pub fn nominal_workspace_free(workspaces: &mut Registry<WorkspaceRecord>, err: &mut LastError, workspace: i32) -> (r: i32)
    ensures
        final(workspaces)@ == old(workspaces)@.remove(workspace),
        final(workspaces).next_handle() == old(workspaces).next_handle(),
        old(workspaces)@.contains_key(workspace) ==> r == 0 && final(err)@ == old(err)@,
        !old(workspaces)@.contains_key(workspace) ==> failed_with(
            r,
            final(err)@,
            (NominalErrorCode::InvalidHandle, invalid_handle_msg("workspace"@, workspace)),
        ),
{
    free_handle(workspaces, err, workspace, "workspace")
}

/// Writes the workspace's RID into the caller buffer.
pub fn nominal_workspace_rid(workspaces: &Registry<WorkspaceRecord>, err: &mut LastError, workspace: i32, buf_present: bool, cap: u32) -> (r: StrOut)
    ensures
        str_getter(workspaces@, workspace, "workspace"@, |w: WorkspaceRecord| w.rid@, buf_present, cap, r, old(err)@, final(err)@),
{
    match lookup(workspaces, err, workspace, "workspace") {
        Ok(w) => write_str_field(err, w.rid.as_str(), buf_present, cap as u64),
        Err(code) => str_failed(code),
    }
}

/// Writes the workspace's display name and whether one is set.
pub fn nominal_workspace_display_name(workspaces: &Registry<WorkspaceRecord>, err: &mut LastError, workspace: i32, buf_present: bool, cap: u32) -> (r: StrOut)
    ensures
        opt_str_getter(workspaces@, workspace, "workspace"@, |w: WorkspaceRecord| opt_view(w.display_name), buf_present, cap, r, old(err)@, final(err)@),
{
    match lookup(workspaces, err, workspace, "workspace") {
        Ok(w) => write_opt_string(err, &w.display_name, buf_present, cap),
        Err(code) => str_failed(code),
    }
}

} // verus!
