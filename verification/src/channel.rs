//! `nominal_channel_*`: the time-series signals on a data source.
//!
//! Channels have no create or archive lifecycle; they come into existence
//! through ingest. They are listed, searched, read, and their editable
//! metadata (description and unit) is written in one flat call.

use vstd::prelude::*;

use crate::actions::{check_client, client_step, list_outs_msg};
use crate::client::ClientEntry;
use crate::error::{fail, LastError, NominalErrorCode};
use crate::fields::{fail_null, opt_str_getter, str_failed, str_getter, value_getter, write_opt_string};
use crate::handles::{failed_with, free_handle, invalid_handle_msg, lookup, outcome, Registry};
use crate::staging::{opt_view, optional_step, read_optional, read_required, required_step};
use crate::strings::{arg_view, write_str_field, StrOut};
use crate::text::{append_signed, signed_decimal};

verus! {

/// The data type of a channel's values.
#[derive(Debug, Clone, Copy, PartialEq, Eq, Structural)]
pub enum NominalChannelDataType {
    Double,
    Int,
    Uint,
    String,
    Log,
    DoubleArray,
    StringArray,
    Struct,
    Video,
    Spatial,
    /// Reported for data types the bridge does not recognize; never valid as
    /// an input.
    Unknown,
}

/// The number that stands for a data type at the boundary.
pub open spec fn data_type_value(t: NominalChannelDataType) -> i32 {
    match t {
        NominalChannelDataType::Double => 0,
        NominalChannelDataType::Int => 1,
        NominalChannelDataType::Uint => 2,
        NominalChannelDataType::String => 3,
        NominalChannelDataType::Log => 4,
        NominalChannelDataType::DoubleArray => 5,
        NominalChannelDataType::StringArray => 6,
        NominalChannelDataType::Struct => 7,
        NominalChannelDataType::Video => 8,
        NominalChannelDataType::Spatial => 9,
        NominalChannelDataType::Unknown => 10,
    }
}

/// The data type an incoming number names; `Unknown` is never accepted.
pub open spec fn data_type_of(v: i32) -> Option<NominalChannelDataType> {
    if v == 0 {
        Some(NominalChannelDataType::Double)
    } else if v == 1 {
        Some(NominalChannelDataType::Int)
    } else if v == 2 {
        Some(NominalChannelDataType::Uint)
    } else if v == 3 {
        Some(NominalChannelDataType::String)
    } else if v == 4 {
        Some(NominalChannelDataType::Log)
    } else if v == 5 {
        Some(NominalChannelDataType::DoubleArray)
    } else if v == 6 {
        Some(NominalChannelDataType::StringArray)
    } else if v == 7 {
        Some(NominalChannelDataType::Struct)
    } else if v == 8 {
        Some(NominalChannelDataType::Video)
    } else if v == 9 {
        Some(NominalChannelDataType::Spatial)
    } else {
        None
    }
}

/// Converting an incoming data-type argument named `arg`.
pub open spec fn data_type_step(v: i32, arg: Seq<char>) -> Result<NominalChannelDataType, (NominalErrorCode, Seq<char>)> {
    match data_type_of(v) {
        Some(t) => Ok(t),
        None => Err(
            (
                NominalErrorCode::InvalidArgument,
                "argument '"@ + arg + "' is not a valid channel data type: "@ + signed_decimal(v as int),
            ),
        ),
    }
}

impl NominalChannelDataType {
    /// The number that stands for this data type at the boundary.
    pub fn code(&self) -> (r: i32)
        ensures
            r == data_type_value(*self),
    {
        match self {
            NominalChannelDataType::Double => 0,
            NominalChannelDataType::Int => 1,
            NominalChannelDataType::Uint => 2,
            NominalChannelDataType::String => 3,
            NominalChannelDataType::Log => 4,
            NominalChannelDataType::DoubleArray => 5,
            NominalChannelDataType::StringArray => 6,
            NominalChannelDataType::Struct => 7,
            NominalChannelDataType::Video => 8,
            NominalChannelDataType::Spatial => 9,
            NominalChannelDataType::Unknown => 10,
        }
    }
}

/// Converts an incoming data-type number, rejecting numbers that name no
/// sendable type (including `Unknown`).
pub fn data_type_from_i32(err: &mut LastError, value: i32, arg: &str) -> (r: Result<NominalChannelDataType, i32>)
    ensures
        match data_type_step(value, arg@) {
            Ok(t) => r == Ok::<NominalChannelDataType, i32>(t) && final(err)@ == old(err)@,
            Err(f) => r matches Err(c) && failed_with(c, final(err)@, f),
        },
{
    if value == 0 {
        Ok(NominalChannelDataType::Double)
    } else if value == 1 {
        Ok(NominalChannelDataType::Int)
    } else if value == 2 {
        Ok(NominalChannelDataType::Uint)
    } else if value == 3 {
        Ok(NominalChannelDataType::String)
    } else if value == 4 {
        Ok(NominalChannelDataType::Log)
    } else if value == 5 {
        Ok(NominalChannelDataType::DoubleArray)
    } else if value == 6 {
        Ok(NominalChannelDataType::StringArray)
    } else if value == 7 {
        Ok(NominalChannelDataType::Struct)
    } else if value == 8 {
        Ok(NominalChannelDataType::Video)
    } else if value == 9 {
        Ok(NominalChannelDataType::Spatial)
    } else {
        let mut m = String::from_str("argument '");
        m.append(arg);
        m.append("' is not a valid channel data type: ");
        append_signed(&mut m, value);
        Err(fail(err, NominalErrorCode::InvalidArgument, m))
    }
}

/// Every data type but `Unknown` converts back to itself.
pub proof fn lemma_data_type_round_trip(t: NominalChannelDataType)
    ensures
        t != NominalChannelDataType::Unknown ==> data_type_of(data_type_value(t)) == Some(t),
        t == NominalChannelDataType::Unknown ==> data_type_of(data_type_value(t)) is None,
{
}

/// A channel as its getters report it.
#[derive(Debug)]
pub struct ChannelRecord {
    pub name: String,
    pub data_source_rid: String,
    pub description: Option<String>,
    pub unit: Option<String>,
    pub data_type: NominalChannelDataType,
}

/// Listing the channels of a data source: the client, the (required) data
/// source RID, then both out-parameters.
pub open spec fn channel_list_step<C>(clients: Map<i32, C>, client: i32, data_source_rid: Option<Seq<u8>>, outs_present: bool) -> Result<Seq<char>, (NominalErrorCode, Seq<char>)> {
    match client_step(clients, client) {
        Err(f) => Err(f),
        Ok(_) => match required_step(data_source_rid, "data_source_rid"@) {
            Err(f) => Err(f),
            Ok(d) => if outs_present {
                Ok(d)
            } else {
                Err((NominalErrorCode::NullArgument, list_outs_msg()))
            },
        },
    }
}

/// Checks listing every channel on a data source (dataset, video or
/// connection RID) and yields the RID.
pub fn nominal_channel_list<C>(
    clients: &Registry<ClientEntry<C>>,
    err: &mut LastError,
    client: i32,
    data_source_rid: Option<&[u8]>,
    outs_present: bool,
) -> (r: Result<String, i32>)
    ensures
        outcome(channel_list_step(clients@, client, arg_view(data_source_rid), outs_present), r, old(err)@, final(err)@),
{
    match check_client(clients, err, client) {
        Ok(_) => {},
        Err(c) => {
            return Err(c);
        },
    }
    let rid = match read_required(err, data_source_rid, "data_source_rid") {
        Ok(r) => r,
        Err(c) => {
            return Err(c);
        },
    };
    if !outs_present {
        proof { reveal_strlit("out_list and out_count must not be null"); }
        return Err(fail_null(err, "out_list and out_count must not be null"));
    }
    Ok(rid)
}

/// The filters of a channel search.
#[derive(Debug)]
pub struct ChannelQuery {
    /// Restrict to one data source.
    pub data_source: Option<String>,
    /// Case-insensitive substring the channel name must contain.
    pub substring: Option<String>,
    pub data_type: Option<NominalChannelDataType>,
}

/// A channel search, as the spec sees it.
pub struct ChannelQueryView {
    pub data_source: Option<Seq<char>>,
    pub substring: Option<Seq<char>>,
    pub data_type: Option<NominalChannelDataType>,
}

impl View for ChannelQuery {
    type V = ChannelQueryView;

    open spec fn view(&self) -> ChannelQueryView {
        ChannelQueryView {
            data_source: opt_view(self.data_source),
            substring: opt_view(self.substring),
            data_type: self.data_type,
        }
    }
}

/// A channel search: the client, the optional data source RID and
/// substring, both out-parameters, then the data type (-1 = no filter).
pub open spec fn channel_search_step<C>(
    clients: Map<i32, C>,
    client: i32,
    data_source_rid: Option<Seq<u8>>,
    substring: Option<Seq<u8>>,
    data_type: i32,
    outs_present: bool,
) -> Result<ChannelQueryView, (NominalErrorCode, Seq<char>)> {
    match client_step(clients, client) {
        Err(f) => Err(f),
        Ok(_) => match optional_step(data_source_rid, "data_source_rid"@) {
            Err(f) => Err(f),
            Ok(d) => match optional_step(substring, "substring"@) {
                Err(f) => Err(f),
                Ok(s) => if !outs_present {
                    Err((NominalErrorCode::NullArgument, list_outs_msg()))
                } else if data_type == -1 {
                    Ok(ChannelQueryView { data_source: d, substring: s, data_type: None })
                } else {
                    match data_type_step(data_type, "data_type"@) {
                        Err(f) => Err(f),
                        Ok(t) => Ok(ChannelQueryView { data_source: d, substring: s, data_type: Some(t) }),
                    }
                },
            },
        },
    }
}

/// Checks a channel search and yields its filters, each optional and
/// combined with AND.
pub fn nominal_channel_search<C>(
    clients: &Registry<ClientEntry<C>>,
    err: &mut LastError,
    client: i32,
    data_source_rid: Option<&[u8]>,
    substring: Option<&[u8]>,
    data_type: i32,
    outs_present: bool,
) -> (r: Result<ChannelQuery, i32>)
    ensures
        outcome(channel_search_step(clients@, client, arg_view(data_source_rid), arg_view(substring), data_type, outs_present), r, old(err)@, final(err)@),
{
    match check_client(clients, err, client) {
        Ok(_) => {},
        Err(c) => {
            return Err(c);
        },
    }
    let data_source = match read_optional(err, data_source_rid, "data_source_rid") {
        Ok(d) => d,
        Err(c) => {
            return Err(c);
        },
    };
    let substring = match read_optional(err, substring, "substring") {
        Ok(s) => s,
        Err(c) => {
            return Err(c);
        },
    };
    if !outs_present {
        proof { reveal_strlit("out_list and out_count must not be null"); }
        return Err(fail_null(err, "out_list and out_count must not be null"));
    }
    let data_type = if data_type != -1 {
        match data_type_from_i32(err, data_type, "data_type") {
            Ok(t) => Some(t),
            Err(c) => {
                return Err(c);
            },
        }
    } else {
        None
    };
    Ok(ChannelQuery { data_source, substring, data_type })
}

/// Fetching one channel: the client, the data source RID, the channel
/// name, then the out-parameter.
pub open spec fn channel_get_step<C>(
    clients: Map<i32, C>,
    client: i32,
    data_source_rid: Option<Seq<u8>>,
    name: Option<Seq<u8>>,
    out_present: bool,
) -> Result<(Seq<char>, Seq<char>), (NominalErrorCode, Seq<char>)> {
    match client_step(clients, client) {
        Err(f) => Err(f),
        Ok(_) => match required_step(data_source_rid, "data_source_rid"@) {
            Err(f) => Err(f),
            Ok(d) => match required_step(name, "name"@) {
                Err(f) => Err(f),
                Ok(n) => if out_present {
                    Ok((d, n))
                } else {
                    Err((NominalErrorCode::NullArgument, "out_channel must not be null"@))
                },
            },
        },
    }
}

/// Checks fetching one channel by data source RID and name, and yields both.
pub fn nominal_channel_get<C>(
    clients: &Registry<ClientEntry<C>>,
    err: &mut LastError,
    client: i32,
    data_source_rid: Option<&[u8]>,
    name: Option<&[u8]>,
    out_present: bool,
) -> (r: Result<(String, String), i32>)
    ensures
        match channel_get_step(clients@, client, arg_view(data_source_rid), arg_view(name), out_present) {
            Ok(v) => (r matches Ok(x) && x.0@ == v.0 && x.1@ == v.1) && final(err)@ == old(err)@,
            Err(f) => r matches Err(c) && failed_with(c, final(err)@, f),
        },
{
    match check_client(clients, err, client) {
        Ok(_) => {},
        Err(c) => {
            return Err(c);
        },
    }
    let rid = match read_required(err, data_source_rid, "data_source_rid") {
        Ok(r) => r,
        Err(c) => {
            return Err(c);
        },
    };
    let name = match read_required(err, name, "name") {
        Ok(n) => n,
        Err(c) => {
            return Err(c);
        },
    };
    if !out_present {
        proof { reveal_strlit("out_channel must not be null"); }
        return Err(fail_null(err, "out_channel must not be null"));
    }
    Ok((rid, name))
}

/// A request to set a channel's metadata.
#[derive(Debug)]
pub struct ChannelUpdateRequest {
    pub data_source_rid: String,
    pub name: String,
    pub data_type: NominalChannelDataType,
    pub description: Option<String>,
    pub unit: Option<String>,
    pub clear_unit: bool,
}

/// A metadata request, as the spec sees it.
pub struct ChannelUpdateView {
    pub data_source_rid: Seq<char>,
    pub name: Seq<char>,
    pub data_type: NominalChannelDataType,
    pub description: Option<Seq<char>>,
    pub unit: Option<Seq<char>>,
    pub clear_unit: bool,
}

impl View for ChannelUpdateRequest {
    type V = ChannelUpdateView;

    open spec fn view(&self) -> ChannelUpdateView {
        ChannelUpdateView {
            data_source_rid: self.data_source_rid@,
            name: self.name@,
            data_type: self.data_type,
            description: opt_view(self.description),
            unit: opt_view(self.unit),
            clear_unit: self.clear_unit,
        }
    }
}

/// Setting a channel's metadata: the client, the data source RID, the name,
/// the (required) data type, the optional description and unit, the
/// out-parameter, then unit and `clear_unit` must not both be given.
pub open spec fn set_metadata_step<C>(
    clients: Map<i32, C>,
    client: i32,
    data_source_rid: Option<Seq<u8>>,
    name: Option<Seq<u8>>,
    data_type: i32,
    description: Option<Seq<u8>>,
    unit: Option<Seq<u8>>,
    clear_unit: bool,
    out_present: bool,
) -> Result<ChannelUpdateView, (NominalErrorCode, Seq<char>)> {
    match client_step(clients, client) {
        Err(f) => Err(f),
        Ok(_) => match required_step(data_source_rid, "data_source_rid"@) {
            Err(f) => Err(f),
            Ok(d) => match required_step(name, "name"@) {
                Err(f) => Err(f),
                Ok(n) => match data_type_step(data_type, "data_type"@) {
                    Err(f) => Err(f),
                    Ok(t) => match optional_step(description, "description"@) {
                        Err(f) => Err(f),
                        Ok(desc) => match optional_step(unit, "unit"@) {
                            Err(f) => Err(f),
                            Ok(u) => if !out_present {
                                Err((NominalErrorCode::NullArgument, "out_channel must not be null"@))
                            } else if u is Some && clear_unit {
                                Err((NominalErrorCode::InvalidArgument, "unit and clear_unit are mutually exclusive"@))
                            } else {
                                Ok(
                                    ChannelUpdateView {
                                        data_source_rid: d,
                                        name: n,
                                        data_type: t,
                                        description: desc,
                                        unit: u,
                                        clear_unit,
                                    },
                                )
                            },
                        },
                    },
                },
            },
        },
    }
}

/// Checks setting a channel's editable metadata and yields the request.
/// The data type is required (the upsert needs it when no metadata record
/// exists yet); description and unit are optional (null or empty = leave
/// untouched); `clear_unit` removes an existing unit.
pub fn nominal_channel_set_metadata<C>(
    clients: &Registry<ClientEntry<C>>,
    err: &mut LastError,
    client: i32,
    data_source_rid: Option<&[u8]>,
    name: Option<&[u8]>,
    data_type: i32,
    description: Option<&[u8]>,
    unit: Option<&[u8]>,
    clear_unit: bool,
    out_present: bool,
) -> (r: Result<ChannelUpdateRequest, i32>)
    ensures
        outcome(
            set_metadata_step(
                clients@,
                client,
                arg_view(data_source_rid),
                arg_view(name),
                data_type,
                arg_view(description),
                arg_view(unit),
                clear_unit,
                out_present,
            ),
            r,
            old(err)@,
            final(err)@,
        ),
{
    match check_client(clients, err, client) {
        Ok(_) => {},
        Err(c) => {
            return Err(c);
        },
    }
    let data_source_rid = match read_required(err, data_source_rid, "data_source_rid") {
        Ok(r) => r,
        Err(c) => {
            return Err(c);
        },
    };
    let name = match read_required(err, name, "name") {
        Ok(n) => n,
        Err(c) => {
            return Err(c);
        },
    };
    let data_type = match data_type_from_i32(err, data_type, "data_type") {
        Ok(t) => t,
        Err(c) => {
            return Err(c);
        },
    };
    let description = match read_optional(err, description, "description") {
        Ok(d) => d,
        Err(c) => {
            return Err(c);
        },
    };
    let unit = match read_optional(err, unit, "unit") {
        Ok(u) => u,
        Err(c) => {
            return Err(c);
        },
    };
    if !out_present {
        proof { reveal_strlit("out_channel must not be null"); }
        return Err(fail_null(err, "out_channel must not be null"));
    }
    if unit.is_some() && clear_unit {
        proof { reveal_strlit("unit and clear_unit are mutually exclusive"); }
        return Err(fail(err, NominalErrorCode::InvalidArgument, String::from_str("unit and clear_unit are mutually exclusive")));
    }
    Ok(ChannelUpdateRequest { data_source_rid, name, data_type, description, unit, clear_unit })
}

/// Frees a channel handle. Freeing twice returns an error.
pub fn nominal_channel_free(channels: &mut Registry<ChannelRecord>, err: &mut LastError, channel: i32) -> (r: i32)
    ensures
        final(channels)@ == old(channels)@.remove(channel),
        final(channels).next_handle() == old(channels).next_handle(),
        old(channels)@.contains_key(channel) ==> r == 0 && final(err)@ == old(err)@,
        !old(channels)@.contains_key(channel) ==> failed_with(
            r,
            final(err)@,
            (NominalErrorCode::InvalidHandle, invalid_handle_msg("channel"@, channel)),
        ),
{
    free_handle(channels, err, channel, "channel")
}

/// Writes the channel's name into the caller buffer.
pub fn nominal_channel_name(channels: &Registry<ChannelRecord>, err: &mut LastError, channel: i32, buf_present: bool, cap: u32) -> (r: StrOut)
    ensures
        str_getter(channels@, channel, "channel"@, |c: ChannelRecord| c.name@, buf_present, cap, r, old(err)@, final(err)@),
{
    match lookup(channels, err, channel, "channel") {
        Ok(c) => write_str_field(err, c.name.as_str(), buf_present, cap as u64),
        Err(code) => str_failed(code),
    }
}

/// Writes the RID of the data source that owns the channel.
pub fn nominal_channel_data_source_rid(channels: &Registry<ChannelRecord>, err: &mut LastError, channel: i32, buf_present: bool, cap: u32) -> (r: StrOut)
    ensures
        str_getter(channels@, channel, "channel"@, |c: ChannelRecord| c.data_source_rid@, buf_present, cap, r, old(err)@, final(err)@),
{
    match lookup(channels, err, channel, "channel") {
        Ok(c) => write_str_field(err, c.data_source_rid.as_str(), buf_present, cap as u64),
        Err(code) => str_failed(code),
    }
}

/// Writes the channel's description and whether one is set.
pub fn nominal_channel_description(channels: &Registry<ChannelRecord>, err: &mut LastError, channel: i32, buf_present: bool, cap: u32) -> (r: StrOut)
    ensures
        opt_str_getter(channels@, channel, "channel"@, |c: ChannelRecord| opt_view(c.description), buf_present, cap, r, old(err)@, final(err)@),
{
    match lookup(channels, err, channel, "channel") {
        Ok(c) => write_opt_string(err, &c.description, buf_present, cap),
        Err(code) => str_failed(code),
    }
}

/// Writes the channel's unit symbol (such as "m/s") and whether one is set.
pub fn nominal_channel_unit(channels: &Registry<ChannelRecord>, err: &mut LastError, channel: i32, buf_present: bool, cap: u32) -> (r: StrOut)
    ensures
        opt_str_getter(channels@, channel, "channel"@, |c: ChannelRecord| opt_view(c.unit), buf_present, cap, r, old(err)@, final(err)@),
{
    match lookup(channels, err, channel, "channel") {
        Ok(c) => write_opt_string(err, &c.unit, buf_present, cap),
        Err(code) => str_failed(code),
    }
}

/// The channel's data type, as its boundary number (10 for types the bridge
/// does not recognize).
pub fn nominal_channel_data_type(channels: &Registry<ChannelRecord>, err: &mut LastError, channel: i32, out_present: bool) -> (r: Result<i32, i32>)
    ensures
        value_getter(channels@, channel, "channel"@, |c: ChannelRecord| data_type_value(c.data_type), out_present, "out_type must not be null"@, r, old(err)@, final(err)@),
{
    match lookup(channels, err, channel, "channel") {
        Ok(c) => {
            if !out_present {
                proof { reveal_strlit("out_type must not be null"); }
                return Err(fail_null(err, "out_type must not be null"));
            }
            Ok(c.data_type.code())
        },
        Err(code) => Err(code),
    }
}

} // verus!
