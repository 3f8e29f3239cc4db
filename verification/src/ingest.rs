//! `nominal_ingest_*`: uploading a CSV or Parquet file into an existing
//! dataset, and tracking the server-side ingest job.
//!
//! CSV and Parquet share one option surface and so one staging handle:
//! `nominal_ingest_tabular_begin`, the `_set_*`/`_add_*` calls, then either
//! `nominal_ingest_csv` or `nominal_ingest_parquet`. A timestamp spec (which
//! column holds time, and how it is encoded) is required before an upload.
//! The upload calls do not free the staging handle, so one staging handle
//! can serve several files.

use vstd::prelude::*;

use crate::actions::{check_client, client_step, get_action, get_step};
use crate::client::ClientEntry;
use crate::error::{classify_spec, code_value, fail, fail_sdk, LastError, NominalErrorCode, SdkFailure};
use crate::fields::{fail_null, opt_str_getter, str_failed, str_getter, value_getter, write_opt_string};
use crate::handles::{
    begin_post, begin_staged, edit_post, exhausted_msg, failed_with, free_handle, invalid_handle_msg, lookup,
    lookup_step, outcome, register, take_staged, Registry,
};
use crate::sorted::{entries_view, inserted, keys_of, strings_view, SortedMap};
use crate::staging::{copy_opt, copy_str, nonempty_step, opt_view, read_nonempty_str, read_required, required_step};
use crate::strings::{arg_view, write_str_field, StrOut};
use crate::text::{append_signed, signed_decimal};
use crate::time::{millis_step, ms_to_datetime, MillisArg};

verus! {

/// The lifecycle status of an ingest job.
#[derive(Debug, Clone, Copy, PartialEq, Eq, Structural)]
pub enum NominalIngestJobStatus {
    Submitted,
    Queued,
    InProgress,
    Completed,
    Failed,
    Cancelled,
    /// A status the bridge does not recognize (treated as terminal).
    Unknown,
}

/// The number that stands for a job status at the boundary.
pub open spec fn status_value(s: NominalIngestJobStatus) -> i32 {
    match s {
        NominalIngestJobStatus::Submitted => 0,
        NominalIngestJobStatus::Queued => 1,
        NominalIngestJobStatus::InProgress => 2,
        NominalIngestJobStatus::Completed => 3,
        NominalIngestJobStatus::Failed => 4,
        NominalIngestJobStatus::Cancelled => 5,
        NominalIngestJobStatus::Unknown => 6,
    }
}

/// Whether a job in this status has stopped: Completed, Failed, Cancelled
/// and Unknown are terminal.
pub open spec fn status_terminal(s: NominalIngestJobStatus) -> bool {
    match s {
        NominalIngestJobStatus::Submitted => false,
        NominalIngestJobStatus::Queued => false,
        NominalIngestJobStatus::InProgress => false,
        _ => true,
    }
}

impl NominalIngestJobStatus {
    /// The number that stands for this status at the boundary.
    pub fn code(&self) -> (r: i32)
        ensures
            r == status_value(*self),
    {
        match self {
            NominalIngestJobStatus::Submitted => 0,
            NominalIngestJobStatus::Queued => 1,
            NominalIngestJobStatus::InProgress => 2,
            NominalIngestJobStatus::Completed => 3,
            NominalIngestJobStatus::Failed => 4,
            NominalIngestJobStatus::Cancelled => 5,
            NominalIngestJobStatus::Unknown => 6,
        }
    }

    /// Whether a job in this status has stopped.
    pub fn is_terminal(&self) -> (r: bool)
        ensures
            r == status_terminal(*self),
    {
        match self {
            NominalIngestJobStatus::Submitted => false,
            NominalIngestJobStatus::Queued => false,
            NominalIngestJobStatus::InProgress => false,
            _ => true,
        }
    }
}

/// The time unit of numeric timestamps in a file.
#[derive(Debug, Clone, Copy, PartialEq, Eq, Structural)]
pub enum NominalTimeUnit {
    Nanoseconds,
    Microseconds,
    Milliseconds,
    Seconds,
    Minutes,
    Hours,
    Days,
}

/// The time unit an incoming number names.
pub open spec fn time_unit_of(v: i32) -> Option<NominalTimeUnit> {
    if v == 0 {
        Some(NominalTimeUnit::Nanoseconds)
    } else if v == 1 {
        Some(NominalTimeUnit::Microseconds)
    } else if v == 2 {
        Some(NominalTimeUnit::Milliseconds)
    } else if v == 3 {
        Some(NominalTimeUnit::Seconds)
    } else if v == 4 {
        Some(NominalTimeUnit::Minutes)
    } else if v == 5 {
        Some(NominalTimeUnit::Hours)
    } else if v == 6 {
        Some(NominalTimeUnit::Days)
    } else {
        None
    }
}

/// The number that stands for a time unit at the boundary.
pub open spec fn time_unit_value(u: NominalTimeUnit) -> i32 {
    match u {
        NominalTimeUnit::Nanoseconds => 0,
        NominalTimeUnit::Microseconds => 1,
        NominalTimeUnit::Milliseconds => 2,
        NominalTimeUnit::Seconds => 3,
        NominalTimeUnit::Minutes => 4,
        NominalTimeUnit::Hours => 5,
        NominalTimeUnit::Days => 6,
    }
}

/// Every time unit is accepted back from its own number, and exactly the
/// numbers 0 through 6 name a unit.
pub proof fn lemma_time_unit_round_trip(u: NominalTimeUnit, v: i32)
    ensures
        time_unit_of(time_unit_value(u)) == Some(u),
        time_unit_of(v) is Some <==> 0 <= v <= 6,
{
}

/// Converting an incoming time-unit argument named `arg`.
pub open spec fn time_unit_step(v: i32, arg: Seq<char>) -> Result<NominalTimeUnit, (NominalErrorCode, Seq<char>)> {
    match time_unit_of(v) {
        Some(u) => Ok(u),
        None => Err(
            (NominalErrorCode::InvalidArgument, "argument '"@ + arg + "' is not a valid time unit: "@ + signed_decimal(v as int)),
        ),
    }
}

/// Converts an incoming time-unit number.
pub fn time_unit_from_i32(err: &mut LastError, value: i32, arg: &str) -> (r: Result<NominalTimeUnit, i32>)
    ensures
        match time_unit_step(value, arg@) {
            Ok(u) => r == Ok::<NominalTimeUnit, i32>(u) && final(err)@ == old(err)@,
            Err(f) => r matches Err(c) && failed_with(c, final(err)@, f),
        },
{
    if value == 0 {
        Ok(NominalTimeUnit::Nanoseconds)
    } else if value == 1 {
        Ok(NominalTimeUnit::Microseconds)
    } else if value == 2 {
        Ok(NominalTimeUnit::Milliseconds)
    } else if value == 3 {
        Ok(NominalTimeUnit::Seconds)
    } else if value == 4 {
        Ok(NominalTimeUnit::Minutes)
    } else if value == 5 {
        Ok(NominalTimeUnit::Hours)
    } else if value == 6 {
        Ok(NominalTimeUnit::Days)
    } else {
        let mut m = String::from_str("argument '");
        m.append(arg);
        m.append("' is not a valid time unit: ");
        append_signed(&mut m, value);
        Err(fail(err, NominalErrorCode::InvalidArgument, m))
    }
}

/// Which column holds time, and how it is encoded.
#[derive(Debug)]
pub enum TimestampSpec {
    /// ISO 8601 strings.
    Iso8601 { column: String },
    /// Numeric epochs in the given unit.
    Epoch { column: String, unit: NominalTimeUnit },
    /// A custom format (Java `DateTimeFormatter` syntax), with defaults for
    /// date parts the format leaves out.
    Custom { column: String, format: String, default_year: Option<i32>, default_day_of_year: Option<i32> },
    /// Numeric offsets in the given unit from a start time.
    Relative { column: String, unit: NominalTimeUnit, offset_ms: Option<i64> },
}

/// A timestamp spec, as the spec sees it.
pub enum TimestampView {
    Iso8601 { column: Seq<char> },
    Epoch { column: Seq<char>, unit: NominalTimeUnit },
    Custom { column: Seq<char>, format: Seq<char>, default_year: Option<i32>, default_day_of_year: Option<i32> },
    Relative { column: Seq<char>, unit: NominalTimeUnit, offset_ms: Option<i64> },
}

impl View for TimestampSpec {
    type V = TimestampView;

    open spec fn view(&self) -> TimestampView {
        match self {
            TimestampSpec::Iso8601 { column } => TimestampView::Iso8601 { column: column@ },
            TimestampSpec::Epoch { column, unit } => TimestampView::Epoch { column: column@, unit: *unit },
            TimestampSpec::Custom { column, format, default_year, default_day_of_year } => TimestampView::Custom {
                column: column@,
                format: format@,
                default_year: *default_year,
                default_day_of_year: *default_day_of_year,
            },
            TimestampSpec::Relative { column, unit, offset_ms } => TimestampView::Relative {
                column: column@,
                unit: *unit,
                offset_ms: *offset_ms,
            },
        }
    }
}

/// A copy of a timestamp spec.
pub fn copy_timestamp(t: &TimestampSpec) -> (r: TimestampSpec)
    ensures
        r@ == t@,
{
    match t {
        TimestampSpec::Iso8601 { column } => TimestampSpec::Iso8601 { column: copy_str(column) },
        TimestampSpec::Epoch { column, unit } => TimestampSpec::Epoch { column: copy_str(column), unit: *unit },
        TimestampSpec::Custom { column, format, default_year, default_day_of_year } => TimestampSpec::Custom {
            column: copy_str(column),
            format: copy_str(format),
            default_year: *default_year,
            default_day_of_year: *default_day_of_year,
        },
        TimestampSpec::Relative { column, unit, offset_ms } => TimestampSpec::Relative {
            column: copy_str(column),
            unit: *unit,
            offset_ms: *offset_ms,
        },
    }
}

/// Staged tabular-ingest options, as the spec sees them.
pub struct TabularFields {
    pub timestamp: Option<TimestampView>,
    pub channel_prefix: Option<Seq<char>>,
    pub tag_columns: Seq<(Seq<char>, Seq<char>)>,
    pub file_tags: Seq<(Seq<char>, Seq<char>)>,
    pub exclude_columns: Seq<Seq<char>>,
    pub is_archive: Option<bool>,
}

/// Accumulated options for a CSV or Parquet ingest. Tag columns, file tags
/// and excluded columns are kept in ascending key order, each key once.
#[derive(Debug)]
pub struct TabularIngestParams {
    timestamp: Option<TimestampSpec>,
    channel_prefix: Option<String>,
    tag_columns: SortedMap<String>,
    file_tags: SortedMap<String>,
    exclude_columns: SortedMap<()>,
    is_archive: Option<bool>,
}

/// The view of an optional timestamp spec.
pub open spec fn opt_timestamp_view(t: Option<TimestampSpec>) -> Option<TimestampView> {
    match t {
        Some(x) => Some(x@),
        None => None,
    }
}

impl View for TabularIngestParams {
    type V = TabularFields;

    closed spec fn view(&self) -> TabularFields {
        TabularFields {
            timestamp: opt_timestamp_view(self.timestamp),
            channel_prefix: opt_view(self.channel_prefix),
            tag_columns: self.tag_columns@,
            file_tags: self.file_tags@,
            exclude_columns: keys_of(self.exclude_columns@),
            is_archive: self.is_archive,
        }
    }
}

/// The options of a new staging handle: nothing set.
pub open spec fn empty_tabular() -> TabularFields {
    TabularFields {
        timestamp: None,
        channel_prefix: None,
        tag_columns: Seq::empty(),
        file_tags: Seq::empty(),
        exclude_columns: Seq::empty(),
        is_archive: None,
    }
}

/// Starting staged ingest options.
pub open spec fn tabular_begin_step(out_present: bool) -> Result<TabularFields, (NominalErrorCode, Seq<char>)> {
    if out_present {
        Ok(empty_tabular())
    } else {
        Err((NominalErrorCode::NullArgument, "out_staging must not be null"@))
    }
}

/// Starts staging options for a CSV or Parquet ingest.
pub fn nominal_ingest_tabular_begin(stagings: &mut Registry<TabularIngestParams>, err: &mut LastError, out_present: bool) -> (r: Result<i32, i32>)
    ensures
        begin_post(old(stagings)@, final(stagings)@, old(stagings).next_handle(), final(stagings).next_handle(), tabular_begin_step(out_present), r, old(err)@, final(err)@),
{
    if !out_present {
        proof { reveal_strlit("out_staging must not be null"); }
        return Err(fail_null(err, "out_staging must not be null"));
    }
    let params = TabularIngestParams {
        timestamp: None,
        channel_prefix: None,
        tag_columns: SortedMap::new(),
        file_tags: SortedMap::new(),
        exclude_columns: SortedMap::new(),
        is_archive: None,
    };
    proof {
        assert(params@.exclude_columns =~= Seq::<Seq<char>>::empty());
    }
    begin_staged(stagings, err, params)
}

/// Replacing the staged timestamp spec.
pub open spec fn with_timestamp(p: TabularFields, t: TimestampView) -> TabularFields {
    TabularFields { timestamp: Some(t), ..p }
}

/// Stores `t` as the staged timestamp spec of the staging handle that was
/// taken out, and puts it back.
fn put_timestamp(stagings: &mut Registry<TabularIngestParams>, staging: i32, p: TabularIngestParams, t: TimestampSpec)
    requires
        1 <= staging < old(stagings).next_handle(),
    ensures
        final(stagings)@ == old(stagings)@.insert(staging, final(stagings)@[staging]),
        final(stagings)@[staging]@ == with_timestamp(p@, t@),
        final(stagings).next_handle() == old(stagings).next_handle(),
{
    let mut p = p;
    p.timestamp = Some(t);
    stagings.put_back(staging, p);
}

/// Setting an ISO 8601 timestamp column.
pub open spec fn iso_step(p: TabularFields, column: Option<Seq<u8>>) -> Result<TabularFields, (NominalErrorCode, Seq<char>)> {
    match required_step(column, "column"@) {
        Ok(c) => Ok(with_timestamp(p, TimestampView::Iso8601 { column: c })),
        Err(f) => Err(f),
    }
}

/// Timestamps are ISO 8601 strings in the named column.
pub fn nominal_ingest_tabular_set_timestamp_iso8601(stagings: &mut Registry<TabularIngestParams>, err: &mut LastError, staging: i32, column: Option<&[u8]>) -> (r: i32)
    ensures
        final(stagings).next_handle() == old(stagings).next_handle(),
        edit_post(old(stagings)@, final(stagings)@, staging, "tabular-ingest staging"@, |p: TabularFields| iso_step(p, arg_view(column)), r, old(err)@, final(err)@),
{
    let p = match take_staged(stagings, err, staging, "tabular-ingest staging") {
        Ok(p) => p,
        Err(c) => {
            return c;
        },
    };
    match read_required(err, column, "column") {
        Ok(c) => {
            put_timestamp(stagings, staging, p, TimestampSpec::Iso8601 { column: c });
            0
        },
        Err(c) => {
            stagings.put_back(staging, p);
            proof {
                assert(stagings@ =~= old(stagings)@);
            }
            c
        },
    }
}

/// Setting an epoch timestamp column.
pub open spec fn epoch_step(p: TabularFields, column: Option<Seq<u8>>, unit: i32) -> Result<TabularFields, (NominalErrorCode, Seq<char>)> {
    match required_step(column, "column"@) {
        Err(f) => Err(f),
        Ok(c) => match time_unit_step(unit, "time_unit"@) {
            Err(f) => Err(f),
            Ok(u) => Ok(with_timestamp(p, TimestampView::Epoch { column: c, unit: u })),
        },
    }
}

/// Timestamps are numeric epochs in the named column, in the given unit.
pub fn nominal_ingest_tabular_set_timestamp_epoch(
    stagings: &mut Registry<TabularIngestParams>,
    err: &mut LastError,
    staging: i32,
    column: Option<&[u8]>,
    time_unit: i32,
) -> (r: i32)
    ensures
        final(stagings).next_handle() == old(stagings).next_handle(),
        edit_post(old(stagings)@, final(stagings)@, staging, "tabular-ingest staging"@, |p: TabularFields| epoch_step(p, arg_view(column), time_unit), r, old(err)@, final(err)@),
{
    let p = match take_staged(stagings, err, staging, "tabular-ingest staging") {
        Ok(p) => p,
        Err(c) => {
            return c;
        },
    };
    let column = match read_required(err, column, "column") {
        Ok(c) => c,
        Err(c) => {
            stagings.put_back(staging, p);
            proof {
                assert(stagings@ =~= old(stagings)@);
            }
            return c;
        },
    };
    match time_unit_from_i32(err, time_unit, "time_unit") {
        Ok(u) => {
            put_timestamp(stagings, staging, p, TimestampSpec::Epoch { column, unit: u });
            0
        },
        Err(c) => {
            stagings.put_back(staging, p);
            proof {
                assert(stagings@ =~= old(stagings)@);
            }
            c
        },
    }
}

/// A default date part: 0 leaves it unset.
pub open spec fn default_part(v: i32) -> Option<i32> {
    if v != 0 {
        Some(v)
    } else {
        None
    }
}

/// Setting a custom-format timestamp column.
pub open spec fn custom_step(
    p: TabularFields,
    column: Option<Seq<u8>>,
    format: Option<Seq<u8>>,
    default_year: i32,
    default_day_of_year: i32,
) -> Result<TabularFields, (NominalErrorCode, Seq<char>)> {
    match required_step(column, "column"@) {
        Err(f) => Err(f),
        Ok(c) => match required_step(format, "format"@) {
            Err(f) => Err(f),
            Ok(fm) => Ok(
                with_timestamp(
                    p,
                    TimestampView::Custom {
                        column: c,
                        format: fm,
                        default_year: default_part(default_year),
                        default_day_of_year: default_part(default_day_of_year),
                    },
                ),
            ),
        },
    }
}

/// Timestamps use a custom format in the named column; `default_year` and
/// `default_day_of_year` fill in date parts the format leaves out (0 leaves
/// a default unset).
pub fn nominal_ingest_tabular_set_timestamp_custom(
    stagings: &mut Registry<TabularIngestParams>,
    err: &mut LastError,
    staging: i32,
    column: Option<&[u8]>,
    format: Option<&[u8]>,
    default_year: i32,
    default_day_of_year: i32,
) -> (r: i32)
    ensures
        final(stagings).next_handle() == old(stagings).next_handle(),
        edit_post(
            old(stagings)@,
            final(stagings)@,
            staging,
            "tabular-ingest staging"@,
            |p: TabularFields| custom_step(p, arg_view(column), arg_view(format), default_year, default_day_of_year),
            r,
            old(err)@,
            final(err)@,
        ),
{
    let p = match take_staged(stagings, err, staging, "tabular-ingest staging") {
        Ok(p) => p,
        Err(c) => {
            return c;
        },
    };
    let column = match read_required(err, column, "column") {
        Ok(c) => c,
        Err(c) => {
            stagings.put_back(staging, p);
            proof {
                assert(stagings@ =~= old(stagings)@);
            }
            return c;
        },
    };
    match read_required(err, format, "format") {
        Ok(f) => {
            let year = if default_year != 0 {
                Some(default_year)
            } else {
                None
            };
            let day = if default_day_of_year != 0 {
                Some(default_day_of_year)
            } else {
                None
            };
            put_timestamp(stagings, staging, p, TimestampSpec::Custom { column, format: f, default_year: year, default_day_of_year: day });
            0
        },
        Err(c) => {
            stagings.put_back(staging, p);
            proof {
                assert(stagings@ =~= old(stagings)@);
            }
            c
        },
    }
}

/// Setting a relative timestamp column.
pub open spec fn relative_step(
    p: TabularFields,
    column: Option<Seq<u8>>,
    unit: i32,
    offset: MillisArg,
    has_offset: bool,
) -> Result<TabularFields, (NominalErrorCode, Seq<char>)> {
    match required_step(column, "column"@) {
        Err(f) => Err(f),
        Ok(c) => match time_unit_step(unit, "time_unit"@) {
            Err(f) => Err(f),
            Ok(u) => if !has_offset {
                Ok(with_timestamp(p, TimestampView::Relative { column: c, unit: u, offset_ms: None }))
            } else {
                match millis_step(offset.rounded, offset.shown@, "offset_ms"@) {
                    Err(f) => Err(f),
                    Ok(o) => Ok(with_timestamp(p, TimestampView::Relative { column: c, unit: u, offset_ms: Some(o) })),
                }
            },
        },
    }
}

/// Timestamps are numeric offsets in the named column, in the given unit,
/// from the start time `offset` (used when `has_offset`; required when
/// ingesting into an existing dataset).
pub fn nominal_ingest_tabular_set_timestamp_relative(
    stagings: &mut Registry<TabularIngestParams>,
    err: &mut LastError,
    staging: i32,
    column: Option<&[u8]>,
    time_unit: i32,
    offset: &MillisArg,
    has_offset: bool,
) -> (r: i32)
    ensures
        final(stagings).next_handle() == old(stagings).next_handle(),
        edit_post(
            old(stagings)@,
            final(stagings)@,
            staging,
            "tabular-ingest staging"@,
            |p: TabularFields| relative_step(p, arg_view(column), time_unit, *offset, has_offset),
            r,
            old(err)@,
            final(err)@,
        ),
{
    let p = match take_staged(stagings, err, staging, "tabular-ingest staging") {
        Ok(p) => p,
        Err(c) => {
            return c;
        },
    };
    let column = match read_required(err, column, "column") {
        Ok(c) => c,
        Err(c) => {
            stagings.put_back(staging, p);
            proof {
                assert(stagings@ =~= old(stagings)@);
            }
            return c;
        },
    };
    let unit = match time_unit_from_i32(err, time_unit, "time_unit") {
        Ok(u) => u,
        Err(c) => {
            stagings.put_back(staging, p);
            proof {
                assert(stagings@ =~= old(stagings)@);
            }
            return c;
        },
    };
    let offset_ms = if has_offset {
        match ms_to_datetime(err, offset, "offset_ms") {
            Ok(o) => Some(o),
            Err(c) => {
                stagings.put_back(staging, p);
                proof {
                    assert(stagings@ =~= old(stagings)@);
                }
                return c;
            },
        }
    } else {
        None
    };
    put_timestamp(stagings, staging, p, TimestampSpec::Relative { column, unit, offset_ms });
    0
}

/// Setting the channel-name prefix.
pub open spec fn prefix_step(p: TabularFields, prefix: Option<Seq<u8>>) -> Result<TabularFields, (NominalErrorCode, Seq<char>)> {
    match nonempty_step(prefix, "prefix"@) {
        Ok(x) => Ok(TabularFields { channel_prefix: Some(x), ..p }),
        Err(f) => Err(f),
    }
}

/// Prefixes every channel name in the file with the given (non-empty)
/// string.
pub fn nominal_ingest_tabular_set_channel_prefix(stagings: &mut Registry<TabularIngestParams>, err: &mut LastError, staging: i32, prefix: Option<&[u8]>) -> (r: i32)
    ensures
        final(stagings).next_handle() == old(stagings).next_handle(),
        edit_post(old(stagings)@, final(stagings)@, staging, "tabular-ingest staging"@, |p: TabularFields| prefix_step(p, arg_view(prefix)), r, old(err)@, final(err)@),
{
    let mut p = match take_staged(stagings, err, staging, "tabular-ingest staging") {
        Ok(p) => p,
        Err(c) => {
            return c;
        },
    };
    match read_nonempty_str(err, prefix, "prefix") {
        Ok(x) => {
            p.channel_prefix = Some(x);
            stagings.put_back(staging, p);
            0
        },
        Err(c) => {
            stagings.put_back(staging, p);
            proof {
                assert(stagings@ =~= old(stagings)@);
            }
            c
        },
    }
}

/// Reading a tag (required, not empty) and its second argument (required).
pub open spec fn tag_step(tag: Option<Seq<u8>>, second: Option<Seq<u8>>, second_name: Seq<char>) -> Result<(Seq<char>, Seq<char>), (NominalErrorCode, Seq<char>)> {
    match nonempty_step(tag, "tag"@) {
        Err(f) => Err(f),
        Ok(t) => match required_step(second, second_name) {
            Err(f) => Err(f),
            Ok(s) => Ok((t, s)),
        },
    }
}

/// What adding to one of the tag maps does to the staged options.
pub open spec fn tag_edit_post(
    old_m: Map<i32, TabularIngestParams>,
    new_m: Map<i32, TabularIngestParams>,
    staging: i32,
    step: Result<(Seq<char>, Seq<char>), (NominalErrorCode, Seq<char>)>,
    file_tags: bool,
    r: i32,
    old_err: Seq<char>,
    new_err: Seq<char>,
) -> bool {
    match lookup_step(old_m, staging, "tabular-ingest staging"@) {
        Err(f) => failed_with(r, new_err, f) && new_m == old_m,
        Ok(p) => match step {
            Err(f) => failed_with(r, new_err, f) && new_m == old_m,
            Ok(kv) => {
                let q = new_m[staging]@;
                &&& r == 0
                &&& new_err == old_err
                &&& new_m.dom() == old_m.dom()
                &&& forall|k: i32| k != staging && #[trigger] old_m.contains_key(k) ==> new_m[k] == old_m[k]
                &&& q.timestamp == p@.timestamp
                &&& q.channel_prefix == p@.channel_prefix
                &&& q.exclude_columns == p@.exclude_columns
                &&& q.is_archive == p@.is_archive
                &&& if file_tags {
                    q.tag_columns == p@.tag_columns && inserted(p@.file_tags, q.file_tags, kv.0, kv.1)
                } else {
                    q.file_tags == p@.file_tags && inserted(p@.tag_columns, q.tag_columns, kv.0, kv.1)
                }
            },
        },
    }
}

/// Derives the given tag's value from the named column (the same tag
/// overwrites).
pub fn nominal_ingest_tabular_add_tag_column(
    stagings: &mut Registry<TabularIngestParams>,
    err: &mut LastError,
    staging: i32,
    tag: Option<&[u8]>,
    column: Option<&[u8]>,
) -> (r: i32)
    ensures
        final(stagings).next_handle() == old(stagings).next_handle(),
        tag_edit_post(old(stagings)@, final(stagings)@, staging, tag_step(arg_view(tag), arg_view(column), "column"@), false, r, old(err)@, final(err)@),
{
    let mut p = match take_staged(stagings, err, staging, "tabular-ingest staging") {
        Ok(p) => p,
        Err(c) => {
            return c;
        },
    };
    let t = match read_nonempty_str(err, tag, "tag") {
        Ok(t) => t,
        Err(c) => {
            stagings.put_back(staging, p);
            proof {
                assert(stagings@ =~= old(stagings)@);
            }
            return c;
        },
    };
    match read_required(err, column, "column") {
        Ok(c) => {
            p.tag_columns.insert(t, c);
            stagings.put_back(staging, p);
            0
        },
        Err(c) => {
            stagings.put_back(staging, p);
            proof {
                assert(stagings@ =~= old(stagings)@);
            }
            c
        },
    }
}

/// Applies a fixed tag value to every row in the file (the same tag
/// overwrites).
pub fn nominal_ingest_tabular_add_file_tag(
    stagings: &mut Registry<TabularIngestParams>,
    err: &mut LastError,
    staging: i32,
    tag: Option<&[u8]>,
    value: Option<&[u8]>,
) -> (r: i32)
    ensures
        final(stagings).next_handle() == old(stagings).next_handle(),
        tag_edit_post(old(stagings)@, final(stagings)@, staging, tag_step(arg_view(tag), arg_view(value), "value"@), true, r, old(err)@, final(err)@),
{
    let mut p = match take_staged(stagings, err, staging, "tabular-ingest staging") {
        Ok(p) => p,
        Err(c) => {
            return c;
        },
    };
    let t = match read_nonempty_str(err, tag, "tag") {
        Ok(t) => t,
        Err(c) => {
            stagings.put_back(staging, p);
            proof {
                assert(stagings@ =~= old(stagings)@);
            }
            return c;
        },
    };
    match read_required(err, value, "value") {
        Ok(v) => {
            p.file_tags.insert(t, v);
            stagings.put_back(staging, p);
            0
        },
        Err(c) => {
            stagings.put_back(staging, p);
            proof {
                assert(stagings@ =~= old(stagings)@);
            }
            c
        },
    }
}

/// Excludes the named column from ingestion. The excluded columns are a
/// set: adding a column twice keeps it once.
pub fn nominal_ingest_tabular_exclude_column(stagings: &mut Registry<TabularIngestParams>, err: &mut LastError, staging: i32, column: Option<&[u8]>) -> (r: i32)
    ensures
        match lookup_step(old(stagings)@, staging, "tabular-ingest staging"@) {
            Err(f) => failed_with(r, final(err)@, f) && final(stagings)@ == old(stagings)@,
            Ok(p) => match nonempty_step(arg_view(column), "column"@) {
                Err(f) => failed_with(r, final(err)@, f) && final(stagings)@ == old(stagings)@,
                Ok(c) => {
                    let q = final(stagings)@[staging]@;
                    &&& r == 0
                    &&& final(err)@ == old(err)@
                    &&& final(stagings)@.dom() == old(stagings)@.dom()
                    &&& forall|k: i32| k != staging && #[trigger] old(stagings)@.contains_key(k)
                        ==> final(stagings)@[k] == old(stagings)@[k]
                    &&& q.timestamp == p@.timestamp
                    &&& q.channel_prefix == p@.channel_prefix
                    &&& q.tag_columns == p@.tag_columns
                    &&& q.file_tags == p@.file_tags
                    &&& q.is_archive == p@.is_archive
                    &&& q.exclude_columns.to_set() == p@.exclude_columns.to_set().insert(c)
                    &&& q.exclude_columns.no_duplicates()
                },
            },
        },
{
    let mut p = match take_staged(stagings, err, staging, "tabular-ingest staging") {
        Ok(p) => p,
        Err(c) => {
            return c;
        },
    };
    match read_nonempty_str(err, column, "column") {
        Ok(c) => {
            let ghost before = p.exclude_columns@;
            let ghost cv = c@;
            p.exclude_columns.insert(c, ());
            proof {
                crate::sorted::lemma_inserted_keys(before, p.exclude_columns@, cv, ());
            }
            stagings.put_back(staging, p);
            0
        },
        Err(c) => {
            stagings.put_back(staging, p);
            proof {
                assert(stagings@ =~= old(stagings)@);
            }
            c
        },
    }
}

/// Marking the file as an archive of Parquet files.
pub open spec fn archive_step(p: TabularFields, is_archive: bool) -> Result<TabularFields, (NominalErrorCode, Seq<char>)> {
    Ok(TabularFields { is_archive: Some(is_archive), ..p })
}

/// Marks the file as an archive (.tar, .tar.gz, .zip) whose .parquet entries
/// are extracted and ingested. Parquet only: a CSV upload rejects staged
/// options with this set.
pub fn nominal_ingest_tabular_set_is_archive(stagings: &mut Registry<TabularIngestParams>, err: &mut LastError, staging: i32, is_archive: bool) -> (r: i32)
    ensures
        final(stagings).next_handle() == old(stagings).next_handle(),
        edit_post(old(stagings)@, final(stagings)@, staging, "tabular-ingest staging"@, |p: TabularFields| archive_step(p, is_archive), r, old(err)@, final(err)@),
{
    let mut p = match take_staged(stagings, err, staging, "tabular-ingest staging") {
        Ok(p) => p,
        Err(c) => {
            return c;
        },
    };
    p.is_archive = Some(is_archive);
    stagings.put_back(staging, p);
    0
}

/// Frees a tabular-ingest staging handle. Freeing twice returns an error.
pub fn nominal_ingest_tabular_free(stagings: &mut Registry<TabularIngestParams>, err: &mut LastError, staging: i32) -> (r: i32)
    ensures
        final(stagings)@ == old(stagings)@.remove(staging),
        final(stagings).next_handle() == old(stagings).next_handle(),
        old(stagings)@.contains_key(staging) ==> r == 0 && final(err)@ == old(err)@,
        !old(stagings)@.contains_key(staging) ==> failed_with(
            r,
            final(err)@,
            (NominalErrorCode::InvalidHandle, invalid_handle_msg("tabular-ingest staging"@, staging)),
        ),
{
    free_handle(stagings, err, staging, "tabular-ingest staging")
}

/// The two file formats that share the tabular options.
#[derive(Debug, Clone, Copy, PartialEq, Eq, Structural)]
pub enum TabularFormat {
    Csv,
    Parquet,
}

/// An upload-and-ingest request built from staged options.
#[derive(Debug)]
pub struct TabularIngestRequest {
    pub format: TabularFormat,
    pub file_path: String,
    pub dataset_rid: String,
    pub timestamp: TimestampSpec,
    pub channel_prefix: Option<String>,
    pub tag_columns: Vec<(String, String)>,
    pub file_tags: Vec<(String, String)>,
    pub exclude_columns: Vec<String>,
    /// Parquet only.
    pub is_archive: Option<bool>,
}

/// An upload request, as the spec sees it.
pub struct TabularIngestView {
    pub format: TabularFormat,
    pub file_path: Seq<char>,
    pub dataset_rid: Seq<char>,
    pub timestamp: TimestampView,
    pub channel_prefix: Option<Seq<char>>,
    pub tag_columns: Seq<(Seq<char>, Seq<char>)>,
    pub file_tags: Seq<(Seq<char>, Seq<char>)>,
    pub exclude_columns: Seq<Seq<char>>,
    pub is_archive: Option<bool>,
}

impl View for TabularIngestRequest {
    type V = TabularIngestView;

    open spec fn view(&self) -> TabularIngestView {
        TabularIngestView {
            format: self.format,
            file_path: self.file_path@,
            dataset_rid: self.dataset_rid@,
            timestamp: self.timestamp@,
            channel_prefix: opt_view(self.channel_prefix),
            tag_columns: entries_view(self.tag_columns@),
            file_tags: entries_view(self.file_tags@),
            exclude_columns: strings_view(self.exclude_columns@),
            is_archive: self.is_archive,
        }
    }
}

/// The message when no timestamp spec was staged.
pub open spec fn no_timestamp_msg() -> Seq<char> {
    "no timestamp spec staged: call one of the set_timestamp_* functions first"@
}

/// The message when a CSV upload gets options marked as an archive.
pub open spec fn csv_archive_msg() -> Seq<char> {
    "is_archive applies to parquet only — use nominal_ingest_parquet"@
}

/// An upload: the client, the staging handle, the file path, the dataset
/// RID, the out-parameter, a staged timestamp spec, and, for CSV, no
/// archive flag.
pub open spec fn ingest_step<C>(
    clients: Map<i32, C>,
    stagings: Map<i32, TabularIngestParams>,
    client: i32,
    staging: i32,
    file_path: Option<Seq<u8>>,
    dataset_rid: Option<Seq<u8>>,
    out_present: bool,
    format: TabularFormat,
) -> Result<TabularIngestView, (NominalErrorCode, Seq<char>)> {
    match client_step(clients, client) {
        Err(f) => Err(f),
        Ok(_) => match lookup_step(stagings, staging, "tabular-ingest staging"@) {
            Err(f) => Err(f),
            Ok(p) => match required_step(file_path, "file_path"@) {
                Err(f) => Err(f),
                Ok(path) => match required_step(dataset_rid, "dataset_rid"@) {
                    Err(f) => Err(f),
                    Ok(rid) => if !out_present {
                        Err((NominalErrorCode::NullArgument, "out_job must not be null"@))
                    } else {
                        match p@.timestamp {
                            None => Err((NominalErrorCode::InvalidArgument, no_timestamp_msg())),
                            Some(t) => if format == TabularFormat::Csv && p@.is_archive is Some {
                                Err((NominalErrorCode::InvalidArgument, csv_archive_msg()))
                            } else {
                                Ok(
                                    TabularIngestView {
                                        format,
                                        file_path: path,
                                        dataset_rid: rid,
                                        timestamp: t,
                                        channel_prefix: p@.channel_prefix,
                                        tag_columns: p@.tag_columns,
                                        file_tags: p@.file_tags,
                                        exclude_columns: p@.exclude_columns,
                                        is_archive: p@.is_archive,
                                    },
                                )
                            },
                        }
                    },
                },
            },
        },
    }
}

/// The staged options as a request for `format`, or the failure when no
/// timestamp spec was staged.
pub fn staged_parts(err: &mut LastError, p: &TabularIngestParams, format: TabularFormat, file_path: String, dataset_rid: String) -> (r: Result<TabularIngestRequest, i32>)
    ensures
        match p@.timestamp {
            None => r matches Err(c) && failed_with(c, final(err)@, (NominalErrorCode::InvalidArgument, no_timestamp_msg())),
            Some(t) => (r matches Ok(req) && req@ == TabularIngestView {
                format,
                file_path: file_path@,
                dataset_rid: dataset_rid@,
                timestamp: t,
                channel_prefix: p@.channel_prefix,
                tag_columns: p@.tag_columns,
                file_tags: p@.file_tags,
                exclude_columns: p@.exclude_columns,
                is_archive: p@.is_archive,
            }) && final(err)@ == old(err)@,
        },
{
    let timestamp = match &p.timestamp {
        Some(t) => copy_timestamp(t),
        None => {
            proof { reveal_strlit("no timestamp spec staged: call one of the set_timestamp_* functions first"); }
            return Err(
                fail(
                    err,
                    NominalErrorCode::InvalidArgument,
                    String::from_str("no timestamp spec staged: call one of the set_timestamp_* functions first"),
                ),
            );
        },
    };
    Ok(
        TabularIngestRequest {
            format,
            file_path,
            dataset_rid,
            timestamp,
            channel_prefix: copy_opt(&p.channel_prefix),
            tag_columns: p.tag_columns.pairs(),
            file_tags: p.file_tags.pairs(),
            exclude_columns: p.exclude_columns.keys(),
            is_archive: p.is_archive,
        },
    )
}

/// Checks an upload of `format` with the staged options and yields the
/// request.
pub fn ingest_action<C>(
    clients: &Registry<ClientEntry<C>>,
    stagings: &Registry<TabularIngestParams>,
    err: &mut LastError,
    client: i32,
    staging: i32,
    file_path: Option<&[u8]>,
    dataset_rid: Option<&[u8]>,
    out_present: bool,
    format: TabularFormat,
) -> (r: Result<TabularIngestRequest, i32>)
    ensures
        outcome(ingest_step(clients@, stagings@, client, staging, arg_view(file_path), arg_view(dataset_rid), out_present, format), r, old(err)@, final(err)@),
{
    match check_client(clients, err, client) {
        Ok(_) => {},
        Err(c) => {
            return Err(c);
        },
    }
    let p = match lookup(stagings, err, staging, "tabular-ingest staging") {
        Ok(p) => p,
        Err(c) => {
            return Err(c);
        },
    };
    let path = match read_required(err, file_path, "file_path") {
        Ok(x) => x,
        Err(c) => {
            return Err(c);
        },
    };
    let rid = match read_required(err, dataset_rid, "dataset_rid") {
        Ok(x) => x,
        Err(c) => {
            return Err(c);
        },
    };
    if !out_present {
        proof { reveal_strlit("out_job must not be null"); }
        return Err(fail_null(err, "out_job must not be null"));
    }
    let request = match staged_parts(err, p, format, path, rid) {
        Ok(req) => req,
        Err(c) => {
            return Err(c);
        },
    };
    if format == TabularFormat::Csv && request.is_archive.is_some() {
        proof { reveal_strlit("is_archive applies to parquet only — use nominal_ingest_parquet"); }
        return Err(
            fail(
                err,
                NominalErrorCode::InvalidArgument,
                String::from_str("is_archive applies to parquet only — use nominal_ingest_parquet"),
            ),
        );
    }
    Ok(request)
}

/// Checks uploading a CSV file (`.csv` or `.csv.gz`) into the existing
/// dataset with the given RID, with the staged options, and yields the
/// request. Staged options marked as an archive are rejected.
pub fn nominal_ingest_csv<C>(
    clients: &Registry<ClientEntry<C>>,
    stagings: &Registry<TabularIngestParams>,
    err: &mut LastError,
    client: i32,
    staging: i32,
    file_path: Option<&[u8]>,
    dataset_rid: Option<&[u8]>,
    out_present: bool,
) -> (r: Result<TabularIngestRequest, i32>)
    ensures
        outcome(ingest_step(clients@, stagings@, client, staging, arg_view(file_path), arg_view(dataset_rid), out_present, TabularFormat::Csv), r, old(err)@, final(err)@),
{
    ingest_action(clients, stagings, err, client, staging, file_path, dataset_rid, out_present, TabularFormat::Csv)
}

/// Checks uploading a Parquet file (or archive of Parquet files) into the
/// existing dataset with the given RID, and yields the request.
pub fn nominal_ingest_parquet<C>(
    clients: &Registry<ClientEntry<C>>,
    stagings: &Registry<TabularIngestParams>,
    err: &mut LastError,
    client: i32,
    staging: i32,
    file_path: Option<&[u8]>,
    dataset_rid: Option<&[u8]>,
    out_present: bool,
) -> (r: Result<TabularIngestRequest, i32>)
    ensures
        outcome(ingest_step(clients@, stagings@, client, staging, arg_view(file_path), arg_view(dataset_rid), out_present, TabularFormat::Parquet), r, old(err)@, final(err)@),
{
    ingest_action(clients, stagings, err, client, staging, file_path, dataset_rid, out_present, TabularFormat::Parquet)
}

// ---------------------------------------------------------------------------
// Ingest jobs
// ---------------------------------------------------------------------------

/// An ingest job as its getters report it.
#[derive(Debug)]
pub struct IngestJobRecord {
    pub rid: String,
    /// A snapshot from when the handle was created.
    pub status: NominalIngestJobStatus,
    /// The dataset the data landed in; known only for jobs created by an
    /// upload.
    pub result_rid: Option<String>,
}

/// Checks fetching the current state of the ingest job with the given RID.
pub fn nominal_ingest_job_get<C>(clients: &Registry<ClientEntry<C>>, err: &mut LastError, client: i32, rid: Option<&[u8]>, out_present: bool) -> (r: Result<String, i32>)
    ensures
        outcome(get_step(clients@, client, arg_view(rid), out_present, "out_job must not be null"@), r, old(err)@, final(err)@),
{
    proof { reveal_strlit("out_job must not be null"); }
    get_action(clients, err, client, rid, out_present, "out_job must not be null")
}

/// Checks waiting for the ingest job with the given RID: the same checks as
/// fetching it. The host layer then polls, handing each fetch to
/// [`nominal_ingest_job_wait_poll`].
pub fn nominal_ingest_job_wait<C>(clients: &Registry<ClientEntry<C>>, err: &mut LastError, client: i32, rid: Option<&[u8]>, out_present: bool) -> (r: Result<String, i32>)
    ensures
        outcome(get_step(clients@, client, arg_view(rid), out_present, "out_job must not be null"@), r, old(err)@, final(err)@),
{
    proof { reveal_strlit("out_job must not be null"); }
    get_action(clients, err, client, rid, out_present, "out_job must not be null")
}

/// What to do after one fetch while waiting for a job.
#[derive(Debug)]
pub enum WaitAction {
    /// Stop, with the job handle or the error code.
    Finish(Result<i32, i32>),
    /// Sleep for the poll interval and fetch again.
    PollAgain,
}

/// Decides one step of waiting for a job: a failed fetch ends the wait with
/// its error; a job in a terminal state (even an unsuccessful one) is
/// registered and ends the wait; any other state polls again.
pub fn nominal_ingest_job_wait_poll(jobs: &mut Registry<IngestJobRecord>, err: &mut LastError, fetched: Result<IngestJobRecord, SdkFailure>) -> (r: WaitAction)
    ensures
        match fetched {
            Err(f) => {
                &&& r == WaitAction::Finish(Err(code_value(classify_spec(f.kind))))
                &&& final(err)@ == f.message@
                &&& final(jobs)@ == old(jobs)@
            },
            Ok(job) => if status_terminal(job.status) {
                r matches WaitAction::Finish(res) && if old(jobs).next_handle() < i32::MAX {
                    &&& res == Ok::<i32, i32>(old(jobs).next_handle() as i32)
                    &&& final(jobs)@ == old(jobs)@.insert(old(jobs).next_handle() as i32, job)
                    &&& final(err)@ == old(err)@
                } else {
                    &&& res matches Err(c) && failed_with(c, final(err)@, (NominalErrorCode::Panic, exhausted_msg()))
                    &&& final(jobs)@ == old(jobs)@
                }
            } else {
                &&& r == WaitAction::PollAgain
                &&& final(jobs)@ == old(jobs)@
                &&& final(err)@ == old(err)@
            },
        },
{
    match fetched {
        Err(f) => WaitAction::Finish(Err(fail_sdk(err, f))),
        Ok(job) => {
            if job.status.is_terminal() {
                WaitAction::Finish(register(jobs, err, Ok(job)))
            } else {
                WaitAction::PollAgain
            }
        },
    }
}

/// Writes the ingest job's RID into the caller buffer.
pub fn nominal_ingest_job_rid(jobs: &Registry<IngestJobRecord>, err: &mut LastError, job: i32, buf_present: bool, cap: u32) -> (r: StrOut)
    ensures
        str_getter(jobs@, job, "ingest-job"@, |j: IngestJobRecord| j.rid@, buf_present, cap, r, old(err)@, final(err)@),
{
    match lookup(jobs, err, job, "ingest-job") {
        Ok(j) => write_str_field(err, j.rid.as_str(), buf_present, cap as u64),
        Err(code) => str_failed(code),
    }
}

/// The job's status as its boundary number: a snapshot from when the handle
/// was created.
pub fn nominal_ingest_job_status(jobs: &Registry<IngestJobRecord>, err: &mut LastError, job: i32, out_present: bool) -> (r: Result<i32, i32>)
    ensures
        value_getter(jobs@, job, "ingest-job"@, |j: IngestJobRecord| status_value(j.status), out_present, "out_status must not be null"@, r, old(err)@, final(err)@),
{
    match lookup(jobs, err, job, "ingest-job") {
        Ok(j) => {
            if !out_present {
                proof { reveal_strlit("out_status must not be null"); }
                return Err(fail_null(err, "out_status must not be null"));
            }
            Ok(j.status.code())
        },
        Err(code) => Err(code),
    }
}

/// Writes the RID of the dataset the ingest landed in, and whether it is
/// known (only for handles returned by the upload calls).
pub fn nominal_ingest_job_result_rid(jobs: &Registry<IngestJobRecord>, err: &mut LastError, job: i32, buf_present: bool, cap: u32) -> (r: StrOut)
    ensures
        opt_str_getter(jobs@, job, "ingest-job"@, |j: IngestJobRecord| opt_view(j.result_rid), buf_present, cap, r, old(err)@, final(err)@),
{
    match lookup(jobs, err, job, "ingest-job") {
        Ok(j) => write_opt_string(err, &j.result_rid, buf_present, cap),
        Err(code) => str_failed(code),
    }
}

/// Frees an ingest-job handle. Freeing twice returns an error.
pub fn nominal_ingest_job_free(jobs: &mut Registry<IngestJobRecord>, err: &mut LastError, job: i32) -> (r: i32)
    ensures
        final(jobs)@ == old(jobs)@.remove(job),
        final(jobs).next_handle() == old(jobs).next_handle(),
        old(jobs)@.contains_key(job) ==> r == 0 && final(err)@ == old(err)@,
        !old(jobs)@.contains_key(job) ==> failed_with(
            r,
            final(err)@,
            (NominalErrorCode::InvalidHandle, invalid_handle_msg("ingest-job"@, job)),
        ),
{
    free_handle(jobs, err, job, "ingest-job")
}

} // verus!
