//! Staged create and update requests for assets, datasets, videos and runs.
//!
//! A C string array has no representation on the host side, so collections
//! arrive one string per call: `_begin` returns a staging handle, the
//! `_set_*`/`_add_*` calls accumulate onto it, and `_commit` turns it into a
//! request. Commit does not free the staging handle, so one staging handle
//! can be committed more than once.

use vstd::prelude::*;

use crate::error::{LastError, NominalErrorCode};
use crate::handles::{
    begin_post, begin_staged, edit_post, failed_with, lookup, lookup_step, take_staged, Registry,
};
use crate::sorted::{entries_view, inserted, strings_view, SortedMap};
use crate::strings::{arg_view, optional_spec, read_optional_str, read_required_str, required_msg, required_spec};

verus! {

/// The text of an optional string.
pub open spec fn opt_view(o: Option<String>) -> Option<Seq<char>> {
    match o {
        Some(s) => Some(s@),
        None => None,
    }
}

/// Reading a required string argument named `name`.
pub open spec fn required_step(arg: Option<Seq<u8>>, name: Seq<char>) -> Result<Seq<char>, (NominalErrorCode, Seq<char>)> {
    match required_spec(arg) {
        Ok(t) => Ok(t),
        Err(c) => Err((c, required_msg(arg, name))),
    }
}

/// Reading an optional string argument named `name`: null and empty are
/// both absent.
pub open spec fn optional_step(arg: Option<Seq<u8>>, name: Seq<char>) -> Result<Option<Seq<char>>, (NominalErrorCode, Seq<char>)> {
    match optional_spec(arg) {
        Ok(t) => Ok(t),
        Err(c) => Err((c, required_msg(arg, name))),
    }
}

/// Reading a required argument that must also not be empty.
pub open spec fn nonempty_step(arg: Option<Seq<u8>>, name: Seq<char>) -> Result<Seq<char>, (NominalErrorCode, Seq<char>)> {
    match required_step(arg, name) {
        Ok(t) => if t.len() == 0 {
            Err((NominalErrorCode::InvalidArgument, name + " must not be empty"@))
        } else {
            Ok(t)
        },
        Err(f) => Err(f),
    }
}

/// Reads a required argument that must not be empty.
pub fn read_nonempty_str(err: &mut LastError, arg: Option<&[u8]>, name: &str) -> (r: Result<String, i32>)
    ensures
        match nonempty_step(arg_view(arg), name@) {
            Ok(t) => (r matches Ok(s) && s@ == t) && final(err)@ == old(err)@,
            Err(f) => r matches Err(c) && failed_with(c, final(err)@, f),
        },
{
    proof {
        reveal_strlit("argument '");
        reveal_strlit(" must not be empty");
    }
    let value = match read_required_str(err, arg, name) {
        Ok(v) => v,
        Err(c) => {
            return Err(c);
        },
    };
    if value.as_str().is_empty() {
        let mut m = name.to_string();
        m.append(" must not be empty");
        return Err(crate::error::fail(err, NominalErrorCode::InvalidArgument, m));
    }
    Ok(value)
}

/// Reads an optional argument into an exact result.
pub fn read_optional(err: &mut LastError, arg: Option<&[u8]>, name: &str) -> (r: Result<Option<String>, i32>)
    ensures
        match optional_step(arg_view(arg), name@) {
            Ok(t) => (r matches Ok(s) && opt_view(s) == t) && final(err)@ == old(err)@,
            Err(f) => r matches Err(c) && failed_with(c, final(err)@, f),
        },
{
    proof { reveal_strlit("argument '"); }
    read_optional_str(err, arg, name)
}

/// Reads a required argument into an exact result.
pub fn read_required(err: &mut LastError, arg: Option<&[u8]>, name: &str) -> (r: Result<String, i32>)
    ensures
        match required_step(arg_view(arg), name@) {
            Ok(t) => (r matches Ok(s) && s@ == t) && final(err)@ == old(err)@,
            Err(f) => r matches Err(c) && failed_with(c, final(err)@, f),
        },
{
    proof { reveal_strlit("argument '"); }
    read_required_str(err, arg, name)
}

/// Setting property `k` to `v` in a property map, as the spec sees it.
pub open spec fn props_set(old_m: Seq<(Seq<char>, Seq<char>)>, new_m: Seq<(Seq<char>, Seq<char>)>, k: Seq<char>, v: Seq<char>) -> bool {
    inserted(old_m, new_m, k, v)
}

/// Reading a key/value argument pair for a property.
pub open spec fn property_step(key: Option<Seq<u8>>, value: Option<Seq<u8>>) -> Result<(Seq<char>, Seq<char>), (NominalErrorCode, Seq<char>)> {
    match nonempty_step(key, "key"@) {
        Ok(k) => match required_step(value, "value"@) {
            Ok(v) => Ok((k, v)),
            Err(f) => Err(f),
        },
        Err(f) => Err(f),
    }
}

/// Reads a property's key (required, not empty) and value (required).
pub fn read_property(err: &mut LastError, key: Option<&[u8]>, value: Option<&[u8]>) -> (r: Result<(String, String), i32>)
    ensures
        match property_step(arg_view(key), arg_view(value)) {
            Ok(kv) => (r matches Ok(p) && p.0@ == kv.0 && p.1@ == kv.1) && final(err)@ == old(err)@,
            Err(f) => r matches Err(c) && failed_with(c, final(err)@, f),
        },
{
    let k = match read_nonempty_str(err, key, "key") {
        Ok(k) => k,
        Err(c) => {
            return Err(c);
        },
    };
    let v = match read_required(err, value, "value") {
        Ok(v) => v,
        Err(c) => {
            return Err(c);
        },
    };
    Ok((k, v))
}

/// A copy of a string.
pub fn copy_str(s: &String) -> (r: String)
    ensures
        r@ == s@,
{
    s.clone()
}

/// A copy of an optional string.
pub fn copy_opt(s: &Option<String>) -> (r: Option<String>)
    ensures
        opt_view(r) == opt_view(*s),
{
    match s {
        Some(v) => Some(v.clone()),
        None => None,
    }
}

/// A copy of a list of strings.
pub fn copy_strs(v: &Vec<String>) -> (r: Vec<String>)
    ensures
        strings_view(r@) == strings_view(v@),
{
    let mut out: Vec<String> = Vec::new();
    let mut i: usize = 0;
    while i < v.len()
        invariant
            i <= v@.len(),
            out@.len() == i,
            forall|j: int| 0 <= j < i ==> #[trigger] out@[j]@ == v@[j]@,
        decreases v@.len() - i,
    {
        out.push(v[i].clone());
        i = i + 1;
    }
    proof {
        assert(strings_view(out@) =~= strings_view(v@));
    }
    out
}

/// A non-empty list as a present list, an empty one as absent: the
/// requests leave empty collections out.
pub open spec fn nonempty_seq<A>(s: Seq<A>) -> Option<Seq<A>> {
    if s.len() == 0 {
        None
    } else {
        Some(s)
    }
}

/// The labels of a request as the spec sees them.
pub open spec fn opt_strs_view(o: Option<Vec<String>>) -> Option<Seq<Seq<char>>> {
    match o {
        Some(v) => Some(strings_view(v@)),
        None => None,
    }
}

/// The properties of a request as the spec sees them.
pub open spec fn opt_pairs_view(o: Option<Vec<(String, String)>>) -> Option<Seq<(Seq<char>, Seq<char>)>> {
    match o {
        Some(v) => Some(entries_view(v@)),
        None => None,
    }
}

/// Labels for a request: absent when none were staged.
pub fn request_labels(labels: &Vec<String>) -> (r: Option<Vec<String>>)
    ensures
        opt_strs_view(r) == nonempty_seq(strings_view(labels@)),
{
    if labels.len() == 0 {
        None
    } else {
        Some(copy_strs(labels))
    }
}

/// Properties for a request: absent when none were staged.
pub fn request_properties(props: &SortedMap<String>) -> (r: Option<Vec<(String, String)>>)
    ensures
        opt_pairs_view(r) == nonempty_seq(props@),
{
    if props.len() == 0 {
        None
    } else {
        Some(props.pairs())
    }
}

/// A staged create, as the spec sees it.
pub struct CreateFields {
    pub name: Seq<char>,
    pub description: Option<Seq<char>>,
    pub channel_delimiter: Option<Seq<char>>,
    pub labels: Seq<Seq<char>>,
    pub properties: Seq<(Seq<char>, Seq<char>)>,
}

/// Accumulated fields for creating an asset, dataset or video. The channel
/// delimiter is staged for datasets only.
#[derive(Debug)]
pub struct CreateParams {
    name: String,
    description: Option<String>,
    channel_delimiter: Option<String>,
    labels: Vec<String>,
    properties: SortedMap<String>,
}

impl View for CreateParams {
    type V = CreateFields;

    closed spec fn view(&self) -> CreateFields {
        CreateFields {
            name: self.name@,
            description: opt_view(self.description),
            channel_delimiter: opt_view(self.channel_delimiter),
            labels: strings_view(self.labels@),
            properties: self.properties@,
        }
    }
}

/// A create request built from staged fields: empty collections are left
/// out.
#[derive(Debug)]
pub struct CreateRequest {
    pub name: String,
    pub description: Option<String>,
    pub channel_delimiter: Option<String>,
    pub labels: Option<Vec<String>>,
    pub properties: Option<Vec<(String, String)>>,
}

/// A create request, as the spec sees it.
pub struct CreateRequestFields {
    pub name: Seq<char>,
    pub description: Option<Seq<char>>,
    pub channel_delimiter: Option<Seq<char>>,
    pub labels: Option<Seq<Seq<char>>>,
    pub properties: Option<Seq<(Seq<char>, Seq<char>)>>,
}

impl View for CreateRequest {
    type V = CreateRequestFields;

    open spec fn view(&self) -> CreateRequestFields {
        CreateRequestFields {
            name: self.name@,
            description: opt_view(self.description),
            channel_delimiter: opt_view(self.channel_delimiter),
            labels: opt_strs_view(self.labels),
            properties: opt_pairs_view(self.properties),
        }
    }
}

/// The request a staged create turns into.
pub open spec fn create_request_of(p: CreateFields) -> CreateRequestFields {
    CreateRequestFields {
        name: p.name,
        description: p.description,
        channel_delimiter: p.channel_delimiter,
        labels: nonempty_seq(p.labels),
        properties: nonempty_seq(p.properties),
    }
}

/// Starting a staged create with the required name.
pub open spec fn create_begin_step(name: Option<Seq<u8>>, out_present: bool) -> Result<CreateFields, (NominalErrorCode, Seq<char>)> {
    match nonempty_step(name, "name"@) {
        Ok(n) => if out_present {
            Ok(
                CreateFields {
                    name: n,
                    description: None,
                    channel_delimiter: None,
                    labels: Seq::empty(),
                    properties: Seq::empty(),
                },
            )
        } else {
            Err((NominalErrorCode::NullArgument, "out_staging must not be null"@))
        },
        Err(f) => Err(f),
    }
}

/// Starts a staged create with the (required, not empty) name.
pub fn create_begin(stagings: &mut Registry<CreateParams>, err: &mut LastError, name: Option<&[u8]>, out_present: bool) -> (r: Result<i32, i32>)
    ensures
        begin_post(
            old(stagings)@,
            final(stagings)@,
            old(stagings).next_handle(),
            final(stagings).next_handle(),
            create_begin_step(arg_view(name), out_present),
            r,
            old(err)@,
            final(err)@,
        ),
{
    let name = match read_nonempty_str(err, name, "name") {
        Ok(n) => n,
        Err(c) => {
            return Err(c);
        },
    };
    if !out_present {
        proof { reveal_strlit("out_staging must not be null"); }
        return Err(crate::fields::fail_null(err, "out_staging must not be null"));
    }
    let params = CreateParams {
        name,
        description: None,
        channel_delimiter: None,
        labels: Vec::new(),
        properties: SortedMap::new(),
    };
    proof {
        assert(params@.labels =~= Seq::<Seq<char>>::empty());
    }
    begin_staged(stagings, err, params)
}

/// Setting the description of a staged create: null or empty clears it.
pub open spec fn create_description_step(p: CreateFields, arg: Option<Seq<u8>>) -> Result<CreateFields, (NominalErrorCode, Seq<char>)> {
    match optional_step(arg, "description"@) {
        Ok(d) => Ok(CreateFields { description: d, ..p }),
        Err(f) => Err(f),
    }
}

/// Sets (or, with null or empty, clears) the description of a staged create.
pub fn create_set_description(
    stagings: &mut Registry<CreateParams>,
    err: &mut LastError,
    staging: i32,
    kind: &str,
    description: Option<&[u8]>,
) -> (r: i32)
    ensures
        final(stagings).next_handle() == old(stagings).next_handle(),
        edit_post(
            old(stagings)@,
            final(stagings)@,
            staging,
            kind@,
            |p: CreateFields| create_description_step(p, arg_view(description)),
            r,
            old(err)@,
            final(err)@,
        ),
{
    let mut p = match take_staged(stagings, err, staging, kind) {
        Ok(p) => p,
        Err(c) => {
            return c;
        },
    };
    let ghost before = p;
    match read_optional(err, description, "description") {
        Ok(d) => {
            p.description = d;
            stagings.put_back(staging, p);
            0
        },
        Err(c) => {
            stagings.put_back(staging, p);
            proof {
                assert(stagings@ =~= old(stagings)@);
            }
            c
        },
    }
}

/// Setting the channel delimiter of a staged dataset create.
pub open spec fn create_delimiter_step(p: CreateFields, arg: Option<Seq<u8>>) -> Result<CreateFields, (NominalErrorCode, Seq<char>)> {
    match nonempty_step(arg, "delimiter"@) {
        Ok(d) => Ok(CreateFields { channel_delimiter: Some(d), ..p }),
        Err(f) => Err(f),
    }
}

/// Sets the channel-name delimiter of a staged create (datasets).
pub fn create_set_channel_delimiter(
    stagings: &mut Registry<CreateParams>,
    err: &mut LastError,
    staging: i32,
    kind: &str,
    delimiter: Option<&[u8]>,
) -> (r: i32)
    ensures
        final(stagings).next_handle() == old(stagings).next_handle(),
        edit_post(
            old(stagings)@,
            final(stagings)@,
            staging,
            kind@,
            |p: CreateFields| create_delimiter_step(p, arg_view(delimiter)),
            r,
            old(err)@,
            final(err)@,
        ),
{
    let mut p = match take_staged(stagings, err, staging, kind) {
        Ok(p) => p,
        Err(c) => {
            return c;
        },
    };
    match read_nonempty_str(err, delimiter, "delimiter") {
        Ok(d) => {
            p.channel_delimiter = Some(d);
            stagings.put_back(staging, p);
            0
        },
        Err(c) => {
            stagings.put_back(staging, p);
            proof {
                assert(stagings@ =~= old(stagings)@);
            }
            c
        },
    }
}

/// Adding a label to a staged create or update.
pub open spec fn label_step(labels: Seq<Seq<char>>, arg: Option<Seq<u8>>) -> Result<Seq<Seq<char>>, (NominalErrorCode, Seq<char>)> {
    match nonempty_step(arg, "label"@) {
        Ok(l) => Ok(labels.push(l)),
        Err(f) => Err(f),
    }
}

/// Adding a label to a staged create.
pub open spec fn create_label_step(p: CreateFields, arg: Option<Seq<u8>>) -> Result<CreateFields, (NominalErrorCode, Seq<char>)> {
    match label_step(p.labels, arg) {
        Ok(ls) => Ok(CreateFields { labels: ls, ..p }),
        Err(f) => Err(f),
    }
}

/// Adds one (non-empty) label to a staged create.
pub fn create_add_label(
    stagings: &mut Registry<CreateParams>,
    err: &mut LastError,
    staging: i32,
    kind: &str,
    label: Option<&[u8]>,
) -> (r: i32)
    ensures
        final(stagings).next_handle() == old(stagings).next_handle(),
        edit_post(
            old(stagings)@,
            final(stagings)@,
            staging,
            kind@,
            |p: CreateFields| create_label_step(p, arg_view(label)),
            r,
            old(err)@,
            final(err)@,
        ),
{
    let mut p = match take_staged(stagings, err, staging, kind) {
        Ok(p) => p,
        Err(c) => {
            return c;
        },
    };
    match read_nonempty_str(err, label, "label") {
        Ok(l) => {
            p.labels.push(l);
            proof {
                assert(p@.labels =~= old(stagings)@[staging]@.labels.push(l@));
            }
            stagings.put_back(staging, p);
            0
        },
        Err(c) => {
            stagings.put_back(staging, p);
            proof {
                assert(stagings@ =~= old(stagings)@);
            }
            c
        },
    }
}

/// Setting a property on a staged create: the new map is the old one with
/// the key set to the value.
pub open spec fn create_property_ok(p: CreateFields, q: CreateFields, kv: (Seq<char>, Seq<char>)) -> bool {
    &&& q.name == p.name
    &&& q.description == p.description
    &&& q.channel_delimiter == p.channel_delimiter
    &&& q.labels == p.labels
    &&& props_set(p.properties, q.properties, kv.0, kv.1)
}

/// Sets one property on a staged create (the same key overwrites).
pub fn create_set_property(
    stagings: &mut Registry<CreateParams>,
    err: &mut LastError,
    staging: i32,
    kind: &str,
    key: Option<&[u8]>,
    value: Option<&[u8]>,
) -> (r: i32)
    ensures
        match lookup_step(old(stagings)@, staging, kind@) {
            Err(f) => failed_with(r, final(err)@, f) && final(stagings)@ == old(stagings)@,
            Ok(p) => match property_step(arg_view(key), arg_view(value)) {
                Ok(kv) => {
                    &&& r == 0
                    &&& final(err)@ == old(err)@
                    &&& final(stagings)@.dom() == old(stagings)@.dom()
                    &&& create_property_ok(p@, final(stagings)@[staging]@, kv)
                    &&& forall|k: i32| k != staging && #[trigger] old(stagings)@.contains_key(k)
                        ==> final(stagings)@[k] == old(stagings)@[k]
                },
                Err(f) => failed_with(r, final(err)@, f) && final(stagings)@ == old(stagings)@,
            },
        },
{
    let mut p = match take_staged(stagings, err, staging, kind) {
        Ok(p) => p,
        Err(c) => {
            return c;
        },
    };
    match read_property(err, key, value) {
        Ok(kv) => {
            p.properties.insert(kv.0, kv.1);
            stagings.put_back(staging, p);
            0
        },
        Err(c) => {
            stagings.put_back(staging, p);
            proof {
                assert(stagings@ =~= old(stagings)@);
            }
            c
        },
    }
}

/// Builds the request of a staged create.
pub fn create_request(p: &CreateParams) -> (r: CreateRequest)
    ensures
        r@ == create_request_of(p@),
{
    CreateRequest {
        name: copy_str(&p.name),
        description: copy_opt(&p.description),
        channel_delimiter: copy_opt(&p.channel_delimiter),
        labels: request_labels(&p.labels),
        properties: request_properties(&p.properties),
    }
}

/// What committing a staged create gives: the request, or the failure.
pub open spec fn create_commit_step<C>(
    clients: Map<i32, C>,
    stagings: Map<i32, CreateParams>,
    client: i32,
    staging: i32,
    kind: Seq<char>,
    out_present: bool,
    out_msg: Seq<char>,
) -> Result<CreateRequestFields, (NominalErrorCode, Seq<char>)> {
    match lookup_step(clients, client, "client"@) {
        Err(f) => Err(f),
        Ok(_) => match lookup_step(stagings, staging, kind) {
            Err(f) => Err(f),
            Ok(p) => if out_present {
                Ok(create_request_of(p@))
            } else {
                Err((NominalErrorCode::NullArgument, out_msg))
            },
        },
    }
}

/// Turns a staged create into its request. The staging handle stays valid.
pub fn create_commit<C>(
    clients: &Registry<C>,
    stagings: &Registry<CreateParams>,
    err: &mut LastError,
    client: i32,
    staging: i32,
    kind: &str,
    out_present: bool,
    out_msg: &str,
) -> (r: Result<CreateRequest, i32>)
    requires
        out_msg@.len() > 0,
    ensures
        match create_commit_step(clients@, stagings@, client, staging, kind@, out_present, out_msg@) {
            Ok(v) => (r matches Ok(req) && req@ == v) && final(err)@ == old(err)@,
            Err(f) => r matches Err(c) && failed_with(c, final(err)@, f),
        },
{
    match lookup(clients, err, client, "client") {
        Ok(_) => {},
        Err(c) => {
            return Err(c);
        },
    }
    let p = match lookup(stagings, err, staging, kind) {
        Ok(p) => p,
        Err(c) => {
            return Err(c);
        },
    };
    if !out_present {
        return Err(crate::fields::fail_null(err, out_msg));
    }
    Ok(create_request(p))
}

/// A staged update, as the spec sees it. `None` leaves a field untouched;
/// `Some` replaces it entirely.
pub struct UpdateFields {
    pub name: Option<Seq<char>>,
    pub description: Option<Seq<char>>,
    pub labels: Option<Seq<Seq<char>>>,
    pub properties: Option<Seq<(Seq<char>, Seq<char>)>>,
    pub start_ms: Option<i64>,
    pub end_ms: Option<i64>,
}

/// Accumulated fields for updating an asset, dataset, video or run. Start
/// and end times are staged for runs only.
#[derive(Debug)]
pub struct UpdateParams {
    name: Option<String>,
    description: Option<String>,
    labels: Option<Vec<String>>,
    properties: Option<SortedMap<String>>,
    start_ms: Option<i64>,
    end_ms: Option<i64>,
}

/// The view of staged properties.
pub open spec fn opt_props_view(o: Option<SortedMap<String>>) -> Option<Seq<(Seq<char>, Seq<char>)>> {
    match o {
        Some(m) => Some(m@),
        None => None,
    }
}

impl View for UpdateParams {
    type V = UpdateFields;

    closed spec fn view(&self) -> UpdateFields {
        UpdateFields {
            name: opt_view(self.name),
            description: opt_view(self.description),
            labels: opt_strs_view(self.labels),
            properties: opt_props_view(self.properties),
            start_ms: self.start_ms,
            end_ms: self.end_ms,
        }
    }
}

/// An update request built from staged fields.
#[derive(Debug)]
pub struct UpdateRequest {
    pub name: Option<String>,
    pub description: Option<String>,
    pub labels: Option<Vec<String>>,
    pub properties: Option<Vec<(String, String)>>,
    pub start_ms: Option<i64>,
    pub end_ms: Option<i64>,
}

impl View for UpdateRequest {
    type V = UpdateFields;

    open spec fn view(&self) -> UpdateFields {
        UpdateFields {
            name: opt_view(self.name),
            description: opt_view(self.description),
            labels: opt_strs_view(self.labels),
            properties: opt_pairs_view(self.properties),
            start_ms: self.start_ms,
            end_ms: self.end_ms,
        }
    }
}

/// Whether a staged update has no field set.
pub open spec fn update_is_empty(p: UpdateFields) -> bool {
    &&& p.name is None
    &&& p.description is None
    &&& p.labels is None
    &&& p.properties is None
    &&& p.start_ms is None
    &&& p.end_ms is None
}

/// The fields of an update that no call has touched yet.
pub open spec fn empty_update() -> UpdateFields {
    UpdateFields {
        name: None,
        description: None,
        labels: None,
        properties: None,
        start_ms: None,
        end_ms: None,
    }
}

/// Starting a staged update.
pub open spec fn update_begin_step(out_present: bool) -> Result<UpdateFields, (NominalErrorCode, Seq<char>)> {
    if out_present {
        Ok(empty_update())
    } else {
        Err((NominalErrorCode::NullArgument, "out_staging must not be null"@))
    }
}

/// Starts a staged update in which no field is set.
pub fn update_begin(stagings: &mut Registry<UpdateParams>, err: &mut LastError, out_present: bool) -> (r: Result<i32, i32>)
    ensures
        begin_post(
            old(stagings)@,
            final(stagings)@,
            old(stagings).next_handle(),
            final(stagings).next_handle(),
            update_begin_step(out_present),
            r,
            old(err)@,
            final(err)@,
        ),
{
    if !out_present {
        proof { reveal_strlit("out_staging must not be null"); }
        return Err(crate::fields::fail_null(err, "out_staging must not be null"));
    }
    let params = UpdateParams {
        name: None,
        description: None,
        labels: None,
        properties: None,
        start_ms: None,
        end_ms: None,
    };
    begin_staged(stagings, err, params)
}

/// Staging a new name.
pub open spec fn update_name_step(p: UpdateFields, arg: Option<Seq<u8>>) -> Result<UpdateFields, (NominalErrorCode, Seq<char>)> {
    match nonempty_step(arg, "name"@) {
        Ok(n) => Ok(UpdateFields { name: Some(n), ..p }),
        Err(f) => Err(f),
    }
}

/// Stages a new (non-empty) name.
pub fn update_set_name(stagings: &mut Registry<UpdateParams>, err: &mut LastError, staging: i32, kind: &str, name: Option<&[u8]>) -> (r: i32)
    ensures
        final(stagings).next_handle() == old(stagings).next_handle(),
        edit_post(
            old(stagings)@,
            final(stagings)@,
            staging,
            kind@,
            |p: UpdateFields| update_name_step(p, arg_view(name)),
            r,
            old(err)@,
            final(err)@,
        ),
{
    let mut p = match take_staged(stagings, err, staging, kind) {
        Ok(p) => p,
        Err(c) => {
            return c;
        },
    };
    match read_nonempty_str(err, name, "name") {
        Ok(n) => {
            p.name = Some(n);
            stagings.put_back(staging, p);
            0
        },
        Err(c) => {
            stagings.put_back(staging, p);
            proof {
                assert(stagings@ =~= old(stagings)@);
            }
            c
        },
    }
}

/// Staging a new description; an empty one clears the description.
pub open spec fn update_description_step(p: UpdateFields, arg: Option<Seq<u8>>) -> Result<UpdateFields, (NominalErrorCode, Seq<char>)> {
    match required_step(arg, "description"@) {
        Ok(d) => Ok(UpdateFields { description: Some(d), ..p }),
        Err(f) => Err(f),
    }
}

/// Stages a new description (empty clears the description).
pub fn update_set_description(
    stagings: &mut Registry<UpdateParams>,
    err: &mut LastError,
    staging: i32,
    kind: &str,
    description: Option<&[u8]>,
) -> (r: i32)
    ensures
        final(stagings).next_handle() == old(stagings).next_handle(),
        edit_post(
            old(stagings)@,
            final(stagings)@,
            staging,
            kind@,
            |p: UpdateFields| update_description_step(p, arg_view(description)),
            r,
            old(err)@,
            final(err)@,
        ),
{
    let mut p = match take_staged(stagings, err, staging, kind) {
        Ok(p) => p,
        Err(c) => {
            return c;
        },
    };
    match read_required(err, description, "description") {
        Ok(d) => {
            p.description = Some(d);
            stagings.put_back(staging, p);
            0
        },
        Err(c) => {
            stagings.put_back(staging, p);
            proof {
                assert(stagings@ =~= old(stagings)@);
            }
            c
        },
    }
}

/// The labels staged so far, none when labels were never touched.
pub open spec fn staged_labels(o: Option<Seq<Seq<char>>>) -> Seq<Seq<char>> {
    match o {
        Some(ls) => ls,
        None => Seq::empty(),
    }
}

/// Adding a label to a staged update: touching labels at all replaces the
/// whole label set with the labels staged here.
pub open spec fn update_label_step(p: UpdateFields, arg: Option<Seq<u8>>) -> Result<UpdateFields, (NominalErrorCode, Seq<char>)> {
    match label_step(staged_labels(p.labels), arg) {
        Ok(ls) => Ok(UpdateFields { labels: Some(ls), ..p }),
        Err(f) => Err(f),
    }
}

/// Adds one (non-empty) label to a staged update.
pub fn update_add_label(stagings: &mut Registry<UpdateParams>, err: &mut LastError, staging: i32, kind: &str, label: Option<&[u8]>) -> (r: i32)
    ensures
        final(stagings).next_handle() == old(stagings).next_handle(),
        edit_post(
            old(stagings)@,
            final(stagings)@,
            staging,
            kind@,
            |p: UpdateFields| update_label_step(p, arg_view(label)),
            r,
            old(err)@,
            final(err)@,
        ),
{
    let mut p = match take_staged(stagings, err, staging, kind) {
        Ok(p) => p,
        Err(c) => {
            return c;
        },
    };
    match read_nonempty_str(err, label, "label") {
        Ok(l) => {
            let ghost ll = l@;
            let mut labels = match p.labels {
                Some(ls) => ls,
                None => Vec::new(),
            };
            proof {
                assert(strings_view(labels@) =~= staged_labels(old(stagings)@[staging]@.labels));
            }
            labels.push(l);
            proof {
                assert(strings_view(labels@) =~= staged_labels(old(stagings)@[staging]@.labels).push(ll));
            }
            p.labels = Some(labels);
            stagings.put_back(staging, p);
            0
        },
        Err(c) => {
            stagings.put_back(staging, p);
            proof {
                assert(stagings@ =~= old(stagings)@);
            }
            c
        },
    }
}

/// The properties staged so far, none when properties were never touched.
pub open spec fn staged_props(o: Option<Seq<(Seq<char>, Seq<char>)>>) -> Seq<(Seq<char>, Seq<char>)> {
    match o {
        Some(m) => m,
        None => Seq::empty(),
    }
}

/// Setting a property on a staged update: touching properties at all
/// replaces the whole property map with the properties staged here.
pub open spec fn update_property_ok(p: UpdateFields, q: UpdateFields, kv: (Seq<char>, Seq<char>)) -> bool {
    &&& q.name == p.name
    &&& q.description == p.description
    &&& q.labels == p.labels
    &&& q.start_ms == p.start_ms
    &&& q.end_ms == p.end_ms
    &&& q.properties matches Some(m) && props_set(staged_props(p.properties), m, kv.0, kv.1)
}

/// Sets one property on a staged update (the same key overwrites).
pub fn update_set_property(
    stagings: &mut Registry<UpdateParams>,
    err: &mut LastError,
    staging: i32,
    kind: &str,
    key: Option<&[u8]>,
    value: Option<&[u8]>,
) -> (r: i32)
    ensures
        match lookup_step(old(stagings)@, staging, kind@) {
            Err(f) => failed_with(r, final(err)@, f) && final(stagings)@ == old(stagings)@,
            Ok(p) => match property_step(arg_view(key), arg_view(value)) {
                Ok(kv) => {
                    &&& r == 0
                    &&& final(err)@ == old(err)@
                    &&& final(stagings)@.dom() == old(stagings)@.dom()
                    &&& update_property_ok(p@, final(stagings)@[staging]@, kv)
                    &&& forall|k: i32| k != staging && #[trigger] old(stagings)@.contains_key(k)
                        ==> final(stagings)@[k] == old(stagings)@[k]
                },
                Err(f) => failed_with(r, final(err)@, f) && final(stagings)@ == old(stagings)@,
            },
        },
{
    let mut p = match take_staged(stagings, err, staging, kind) {
        Ok(p) => p,
        Err(c) => {
            return c;
        },
    };
    match read_property(err, key, value) {
        Ok(kv) => {
            let mut props = match p.properties {
                Some(m) => m,
                None => SortedMap::new(),
            };
            props.insert(kv.0, kv.1);
            p.properties = Some(props);
            stagings.put_back(staging, p);
            0
        },
        Err(c) => {
            stagings.put_back(staging, p);
            proof {
                assert(stagings@ =~= old(stagings)@);
            }
            c
        },
    }
}

/// Staging a new start time.
pub open spec fn update_start_step(p: UpdateFields, arg: crate::time::MillisArg) -> Result<UpdateFields, (NominalErrorCode, Seq<char>)> {
    match crate::time::millis_step(arg.rounded, arg.shown@, "start_ms"@) {
        Ok(ms) => Ok(UpdateFields { start_ms: Some(ms), ..p }),
        Err(f) => Err(f),
    }
}

/// Stages a new start time (runs).
pub fn update_set_start(stagings: &mut Registry<UpdateParams>, err: &mut LastError, staging: i32, kind: &str, start: &crate::time::MillisArg) -> (r: i32)
    ensures
        final(stagings).next_handle() == old(stagings).next_handle(),
        edit_post(
            old(stagings)@,
            final(stagings)@,
            staging,
            kind@,
            |p: UpdateFields| update_start_step(p, *start),
            r,
            old(err)@,
            final(err)@,
        ),
{
    let mut p = match take_staged(stagings, err, staging, kind) {
        Ok(p) => p,
        Err(c) => {
            return c;
        },
    };
    match crate::time::ms_to_datetime(err, start, "start_ms") {
        Ok(ms) => {
            p.start_ms = Some(ms);
            stagings.put_back(staging, p);
            0
        },
        Err(c) => {
            stagings.put_back(staging, p);
            proof {
                assert(stagings@ =~= old(stagings)@);
            }
            c
        },
    }
}

/// Staging a new end time.
pub open spec fn update_end_step(p: UpdateFields, arg: crate::time::MillisArg) -> Result<UpdateFields, (NominalErrorCode, Seq<char>)> {
    match crate::time::millis_step(arg.rounded, arg.shown@, "end_ms"@) {
        Ok(ms) => Ok(UpdateFields { end_ms: Some(ms), ..p }),
        Err(f) => Err(f),
    }
}

/// Stages a new end time (runs).
pub fn update_set_end(stagings: &mut Registry<UpdateParams>, err: &mut LastError, staging: i32, kind: &str, end: &crate::time::MillisArg) -> (r: i32)
    ensures
        final(stagings).next_handle() == old(stagings).next_handle(),
        edit_post(
            old(stagings)@,
            final(stagings)@,
            staging,
            kind@,
            |p: UpdateFields| update_end_step(p, *end),
            r,
            old(err)@,
            final(err)@,
        ),
{
    let mut p = match take_staged(stagings, err, staging, kind) {
        Ok(p) => p,
        Err(c) => {
            return c;
        },
    };
    match crate::time::ms_to_datetime(err, end, "end_ms") {
        Ok(ms) => {
            p.end_ms = Some(ms);
            stagings.put_back(staging, p);
            0
        },
        Err(c) => {
            stagings.put_back(staging, p);
            proof {
                assert(stagings@ =~= old(stagings)@);
            }
            c
        },
    }
}

/// A copy of optional staged labels.
fn copy_opt_strs(o: &Option<Vec<String>>) -> (r: Option<Vec<String>>)
    ensures
        opt_strs_view(r) == opt_strs_view(*o),
{
    match o {
        Some(v) => Some(copy_strs(v)),
        None => None,
    }
}

/// The staged properties as request pairs.
fn copy_opt_props(o: &Option<SortedMap<String>>) -> (r: Option<Vec<(String, String)>>)
    ensures
        opt_pairs_view(r) == opt_props_view(*o),
{
    match o {
        Some(m) => Some(m.pairs()),
        None => None,
    }
}

/// What committing a staged update gives: the target RID and the request,
/// or the failure.
pub open spec fn update_commit_step<C>(
    clients: Map<i32, C>,
    stagings: Map<i32, UpdateParams>,
    client: i32,
    rid: Option<Seq<u8>>,
    staging: i32,
    kind: Seq<char>,
    out_present: bool,
    out_msg: Seq<char>,
) -> Result<(Seq<char>, UpdateFields), (NominalErrorCode, Seq<char>)> {
    match lookup_step(clients, client, "client"@) {
        Err(f) => Err(f),
        Ok(_) => match lookup_step(stagings, staging, kind) {
            Err(f) => Err(f),
            Ok(p) => match required_step(rid, "rid"@) {
                Err(f) => Err(f),
                Ok(r) => if !out_present {
                    Err((NominalErrorCode::NullArgument, out_msg))
                } else if update_is_empty(p@) {
                    Err((NominalErrorCode::InvalidArgument, "staged update has no fields set"@))
                } else {
                    Ok((r, p@))
                },
            },
        },
    }
}

/// Turns a staged update into the RID to update and its request. At least
/// one field must have been staged; the staging handle stays valid.
pub fn update_commit<C>(
    clients: &Registry<C>,
    stagings: &Registry<UpdateParams>,
    err: &mut LastError,
    client: i32,
    rid: Option<&[u8]>,
    staging: i32,
    kind: &str,
    out_present: bool,
    out_msg: &str,
) -> (r: Result<(String, UpdateRequest), i32>)
    requires
        out_msg@.len() > 0,
    ensures
        match update_commit_step(clients@, stagings@, client, arg_view(rid), staging, kind@, out_present, out_msg@) {
            Ok(v) => (r matches Ok(req) && req.0@ == v.0 && req.1@ == v.1) && final(err)@ == old(err)@,
            Err(f) => r matches Err(c) && failed_with(c, final(err)@, f),
        },
{
    match lookup(clients, err, client, "client") {
        Ok(_) => {},
        Err(c) => {
            return Err(c);
        },
    }
    let p = match lookup(stagings, err, staging, kind) {
        Ok(p) => p,
        Err(c) => {
            return Err(c);
        },
    };
    let rid = match read_required(err, rid, "rid") {
        Ok(r) => r,
        Err(c) => {
            return Err(c);
        },
    };
    if !out_present {
        return Err(crate::fields::fail_null(err, out_msg));
    }
    if p.name.is_none() && p.description.is_none() && p.labels.is_none() && p.properties.is_none()
        && p.start_ms.is_none() && p.end_ms.is_none() {
        proof { reveal_strlit("staged update has no fields set"); }
        return Err(crate::error::fail(err, NominalErrorCode::InvalidArgument, String::from_str("staged update has no fields set")));
    }
    let request = UpdateRequest {
        name: copy_opt(&p.name),
        description: copy_opt(&p.description),
        labels: copy_opt_strs(&p.labels),
        properties: copy_opt_props(&p.properties),
        start_ms: p.start_ms,
        end_ms: p.end_ms,
    };
    Ok((rid, request))
}

/// The request a flat create makes.
pub open spec fn flat_create_request(v: (Seq<char>, Option<Seq<char>>)) -> CreateRequestFields {
    CreateRequestFields { name: v.0, description: v.1, channel_delimiter: None, labels: None, properties: None }
}

/// Builds the request of a flat create.
pub fn flat_create_request_of(v: (String, Option<String>)) -> (r: CreateRequest)
    ensures
        r@ == flat_create_request((v.0@, opt_view(v.1))),
{
    CreateRequest { name: v.0, description: v.1, channel_delimiter: None, labels: None, properties: None }
}

/// The request a flat update makes.
pub open spec fn flat_update_request(v: (Seq<char>, Option<Seq<char>>, Option<Seq<char>>)) -> (Seq<char>, UpdateFields) {
    (v.0, UpdateFields { name: v.1, description: v.2, labels: None, properties: None, start_ms: None, end_ms: None })
}

/// Builds the RID and request of a flat update.
pub fn flat_update_request_of(v: (String, Option<String>, Option<String>)) -> (r: (String, UpdateRequest))
    ensures
        (r.0@, r.1@) == flat_update_request((v.0@, opt_view(v.1), opt_view(v.2))),
{
    (v.0, UpdateRequest { name: v.1, description: v.2, labels: None, properties: None, start_ms: None, end_ms: None })
}

} // verus!
