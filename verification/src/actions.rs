//! The checks that every request to the Nominal API goes through before it
//! is sent: the client handle, the arguments, and the out-parameters that
//! will receive the result.
//!
//! Each check here decides whether a request is made and with what; the
//! request itself is made by the host layer, which hands the outcome back to
//! [`crate::handles::register`], [`crate::handles::register_all`] or
//! [`crate::handles::finish_unit`].

use vstd::prelude::*;

use crate::error::{LastError, NominalErrorCode};
use crate::fields::fail_null;
use crate::handles::{lookup, lookup_step, Registry};
use crate::staging::{read_optional, read_required, required_step, optional_step};
use crate::strings::arg_view;

verus! {

/// Looking up the client a request is made with.
pub open spec fn client_step<C>(clients: Map<i32, C>, client: i32) -> Result<(), (NominalErrorCode, Seq<char>)> {
    match lookup_step(clients, client, "client"@) {
        Ok(_) => Ok(()),
        Err(f) => Err(f),
    }
}

/// Checks that `client` is a live client handle.
pub fn check_client<C>(clients: &Registry<C>, err: &mut LastError, client: i32) -> (r: Result<(), i32>)
    ensures
        crate::handles::outcome(client_step(clients@, client), r, old(err)@, final(err)@),
{
    match lookup(clients, err, client, "client") {
        Ok(_) => Ok(()),
        Err(c) => Err(c),
    }
}

/// A call that fetches one object by RID: the client, the (required) RID,
/// then the out-parameter.
pub open spec fn get_step<C>(
    clients: Map<i32, C>,
    client: i32,
    rid: Option<Seq<u8>>,
    out_present: bool,
    out_msg: Seq<char>,
) -> Result<Seq<char>, (NominalErrorCode, Seq<char>)> {
    match client_step(clients, client) {
        Err(f) => Err(f),
        Ok(_) => match required_step(rid, "rid"@) {
            Err(f) => Err(f),
            Ok(r) => if out_present {
                Ok(r)
            } else {
                Err((NominalErrorCode::NullArgument, out_msg))
            },
        },
    }
}

/// Checks a fetch-by-RID call and yields the RID to fetch.
pub fn get_action<C>(
    clients: &Registry<C>,
    err: &mut LastError,
    client: i32,
    rid: Option<&[u8]>,
    out_present: bool,
    out_msg: &str,
) -> (r: Result<String, i32>)
    requires
        out_msg@.len() > 0,
    ensures
        crate::handles::outcome(get_step(clients@, client, arg_view(rid), out_present, out_msg@), r, old(err)@, final(err)@),
{
    match check_client(clients, err, client) {
        Ok(_) => {},
        Err(c) => {
            return Err(c);
        },
    }
    let rid = match read_required(err, rid, "rid") {
        Ok(r) => r,
        Err(c) => {
            return Err(c);
        },
    };
    if !out_present {
        return Err(fail_null(err, out_msg));
    }
    Ok(rid)
}

/// A call that acts on one object by RID and yields nothing (archive,
/// unarchive): the client, then the (required) RID.
pub open spec fn rid_step<C>(clients: Map<i32, C>, client: i32, rid: Option<Seq<u8>>) -> Result<Seq<char>, (NominalErrorCode, Seq<char>)> {
    match client_step(clients, client) {
        Err(f) => Err(f),
        Ok(_) => required_step(rid, "rid"@),
    }
}

/// Checks an act-by-RID call and yields the RID.
pub fn rid_action<C>(clients: &Registry<C>, err: &mut LastError, client: i32, rid: Option<&[u8]>) -> (r: Result<String, i32>)
    ensures
        crate::handles::outcome(rid_step(clients@, client, arg_view(rid)), r, old(err)@, final(err)@),
{
    match check_client(clients, err, client) {
        Ok(_) => {},
        Err(c) => {
            return Err(c);
        },
    }
    read_required(err, rid, "rid")
}

/// The message for a list call whose out-parameters are missing.
pub open spec fn list_outs_msg() -> Seq<char> {
    "out_list and out_count must not be null"@
}

/// A call that lists objects: the client, then both out-parameters.
pub open spec fn list_step<C>(clients: Map<i32, C>, client: i32, outs_present: bool) -> Result<(), (NominalErrorCode, Seq<char>)> {
    match client_step(clients, client) {
        Err(f) => Err(f),
        Ok(_) => if outs_present {
            Ok(())
        } else {
            Err((NominalErrorCode::NullArgument, list_outs_msg()))
        },
    }
}

/// Checks a list call; `outs_present` is whether both the list and the
/// count out-parameters were supplied.
pub fn list_action<C>(clients: &Registry<C>, err: &mut LastError, client: i32, outs_present: bool) -> (r: Result<(), i32>)
    ensures
        crate::handles::outcome(list_step(clients@, client, outs_present), r, old(err)@, final(err)@),
{
    match check_client(clients, err, client) {
        Ok(_) => {},
        Err(c) => {
            return Err(c);
        },
    }
    if !outs_present {
        proof { reveal_strlit("out_list and out_count must not be null"); }
        return Err(fail_null(err, "out_list and out_count must not be null"));
    }
    Ok(())
}

/// A flat create with a required name and optional description: the
/// client, the name, the description, then the out-parameter.
pub open spec fn flat_create_step<C>(
    clients: Map<i32, C>,
    client: i32,
    name: Option<Seq<u8>>,
    description: Option<Seq<u8>>,
    out_present: bool,
    out_msg: Seq<char>,
) -> Result<(Seq<char>, Option<Seq<char>>), (NominalErrorCode, Seq<char>)> {
    match client_step(clients, client) {
        Err(f) => Err(f),
        Ok(_) => match required_step(name, "name"@) {
            Err(f) => Err(f),
            Ok(n) => match optional_step(description, "description"@) {
                Err(f) => Err(f),
                Ok(d) => if out_present {
                    Ok((n, d))
                } else {
                    Err((NominalErrorCode::NullArgument, out_msg))
                },
            },
        },
    }
}

/// Checks a flat create and yields its name and description.
pub fn flat_create_action<C>(
    clients: &Registry<C>,
    err: &mut LastError,
    client: i32,
    name: Option<&[u8]>,
    description: Option<&[u8]>,
    out_present: bool,
    out_msg: &str,
) -> (r: Result<(String, Option<String>), i32>)
    requires
        out_msg@.len() > 0,
    ensures
        match flat_create_step(clients@, client, arg_view(name), arg_view(description), out_present, out_msg@) {
            Ok(v) => (r matches Ok(x) && x.0@ == v.0 && crate::staging::opt_view(x.1) == v.1) && final(err)@ == old(err)@,
            Err(f) => r matches Err(c) && crate::handles::failed_with(c, final(err)@, f),
        },
{
    match check_client(clients, err, client) {
        Ok(_) => {},
        Err(c) => {
            return Err(c);
        },
    }
    let name = match read_required(err, name, "name") {
        Ok(n) => n,
        Err(c) => {
            return Err(c);
        },
    };
    let description = match read_optional(err, description, "description") {
        Ok(d) => d,
        Err(c) => {
            return Err(c);
        },
    };
    if !out_present {
        return Err(fail_null(err, out_msg));
    }
    Ok((name, description))
}

/// A flat update of name and/or description: the client, the RID, the
/// name, the description, the out-parameter, then at least one field.
pub open spec fn flat_update_step<C>(
    clients: Map<i32, C>,
    client: i32,
    rid: Option<Seq<u8>>,
    name: Option<Seq<u8>>,
    description: Option<Seq<u8>>,
    out_present: bool,
    out_msg: Seq<char>,
) -> Result<(Seq<char>, Option<Seq<char>>, Option<Seq<char>>), (NominalErrorCode, Seq<char>)> {
    match client_step(clients, client) {
        Err(f) => Err(f),
        Ok(_) => match required_step(rid, "rid"@) {
            Err(f) => Err(f),
            Ok(r) => match optional_step(name, "name"@) {
                Err(f) => Err(f),
                Ok(n) => match optional_step(description, "description"@) {
                    Err(f) => Err(f),
                    Ok(d) => if !out_present {
                        Err((NominalErrorCode::NullArgument, out_msg))
                    } else if n is None && d is None {
                        Err(
                            (
                                NominalErrorCode::InvalidArgument,
                                "at least one of name or description must be provided"@,
                            ),
                        )
                    } else {
                        Ok((r, n, d))
                    },
                },
            },
        },
    }
}

/// Checks a flat update and yields the RID, name and description.
pub fn flat_update_action<C>(
    clients: &Registry<C>,
    err: &mut LastError,
    client: i32,
    rid: Option<&[u8]>,
    name: Option<&[u8]>,
    description: Option<&[u8]>,
    out_present: bool,
    out_msg: &str,
) -> (r: Result<(String, Option<String>, Option<String>), i32>)
    requires
        out_msg@.len() > 0,
    ensures
        match flat_update_step(clients@, client, arg_view(rid), arg_view(name), arg_view(description), out_present, out_msg@) {
            Ok(v) => (r matches Ok(x) && x.0@ == v.0 && crate::staging::opt_view(x.1) == v.1 && crate::staging::opt_view(
                x.2,
            ) == v.2) && final(err)@ == old(err)@,
            Err(f) => r matches Err(c) && crate::handles::failed_with(c, final(err)@, f),
        },
{
    match check_client(clients, err, client) {
        Ok(_) => {},
        Err(c) => {
            return Err(c);
        },
    }
    let rid = match read_required(err, rid, "rid") {
        Ok(r) => r,
        Err(c) => {
            return Err(c);
        },
    };
    let name = match read_optional(err, name, "name") {
        Ok(n) => n,
        Err(c) => {
            return Err(c);
        },
    };
    let description = match read_optional(err, description, "description") {
        Ok(d) => d,
        Err(c) => {
            return Err(c);
        },
    };
    if !out_present {
        return Err(fail_null(err, out_msg));
    }
    if name.is_none() && description.is_none() {
        proof { reveal_strlit("at least one of name or description must be provided"); }
        return Err(
            crate::error::fail(
                err,
                NominalErrorCode::InvalidArgument,
                String::from_str("at least one of name or description must be provided"),
            ),
        );
    }
    Ok((rid, name, description))
}

} // verus!
