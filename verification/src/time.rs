//! Timestamps crossing the boundary: Unix milliseconds, UTC.
//!
//! The host passes timestamps as `f64` milliseconds; the host layer rounds
//! finite values to whole milliseconds and renders the original value for
//! messages. What is decided here is whether a timestamp is accepted.

use vstd::prelude::*;

use crate::error::{fail, LastError, NominalErrorCode};
use crate::handles::failed_with;

verus! {

/// The earliest representable instant: January 1 of year -262143, UTC.
pub const MIN_TIMESTAMP_MILLIS: i64 = -8334601228800000i64;

/// The last representable millisecond: December 31 of year 262142, UTC.
pub const MAX_TIMESTAMP_MILLIS: i64 = 8210266876799999i64;

/// Whether a millisecond count names a representable instant.
pub open spec fn millis_in_range(ms: int) -> bool {
    MIN_TIMESTAMP_MILLIS <= ms <= MAX_TIMESTAMP_MILLIS
}

/// `chrono::DateTime::<Utc>::from_timestamp_millis`: `Some` exactly for the
/// instants between the earliest and the latest date chrono represents
/// (years -262143 to 262142), so this is true exactly for those. Through
/// `from_timestamp` and `NaiveDate::from_num_days_from_ce_opt`, chrono's
/// day arithmetic puts `MIN_TIMESTAMP_MILLIS` on day 1 of year -262143 and
/// the millisecond before it on day 366 of year -262144, which is below the
/// earliest year it accepts; `MAX_TIMESTAMP_MILLIS` is the last millisecond
/// of day 365 of year 262142, the latest year it accepts.
#[verifier::external_body]
fn timestamp_in_range(ms: i64) -> (r: bool)
    ensures
        r == millis_in_range(ms as int),
{
    chrono::DateTime::from_timestamp_millis(ms).is_some()
}

/// An incoming `f64` timestamp: rounded to whole milliseconds (`None` when
/// the value is not finite), and the value as written in messages.
#[derive(Debug)]
pub struct MillisArg {
    pub rounded: Option<i64>,
    pub shown: String,
}

/// What converting a timestamp argument named `name` gives.
pub open spec fn millis_step(rounded: Option<i64>, shown: Seq<char>, name: Seq<char>) -> Result<i64, (NominalErrorCode, Seq<char>)> {
    match rounded {
        None => Err(
            (
                NominalErrorCode::InvalidArgument,
                "argument '"@ + name + "' must be a finite Unix-millisecond timestamp, got "@ + shown,
            ),
        ),
        Some(ms) => if millis_in_range(ms as int) {
            Ok(ms)
        } else {
            Err((NominalErrorCode::InvalidArgument, "argument '"@ + name + "' is out of timestamp range: "@ + shown))
        },
    }
}

/// Checks a timestamp argument: finite and representable. On failure
/// records a message naming `name` and returns the code.
pub fn ms_to_datetime(err: &mut LastError, arg: &MillisArg, name: &str) -> (r: Result<i64, i32>)
    ensures
        match millis_step(arg.rounded, arg.shown@, name@) {
            Ok(ms) => r == Ok::<i64, i32>(ms) && final(err)@ == old(err)@,
            Err(f) => r matches Err(c) && failed_with(c, final(err)@, f),
        },
{
    proof { reveal_strlit("argument '"); }
    match arg.rounded {
        None => {
            let mut m = String::from_str("argument '");
            m.append(name);
            m.append("' must be a finite Unix-millisecond timestamp, got ");
            m.append(arg.shown.as_str());
            Err(fail(err, NominalErrorCode::InvalidArgument, m))
        },
        Some(ms) => {
            if timestamp_in_range(ms) {
                Ok(ms)
            } else {
                let mut m = String::from_str("argument '");
                m.append(name);
                m.append("' is out of timestamp range: ");
                m.append(arg.shown.as_str());
                Err(fail(err, NominalErrorCode::InvalidArgument, m))
            }
        },
    }
}

} // verus!
