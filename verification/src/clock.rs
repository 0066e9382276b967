//! The wall clock and the rendering of moments, both through chrono.

use vstd::prelude::*;

use crate::db::models::opt_text;

verus! {

/// What chrono renders for a moment given in microseconds since the Unix
/// epoch: `DateTime::from_timestamp_micros`, as a naive UTC time formatted
/// with `%d.%m.%Y %H:%M`, or nothing when chrono cannot represent the moment.
pub uninterp spec fn minute_text(micros: i64) -> Option<Seq<char>>;

/// A moment that chrono can represent, and so render.
pub open spec fn valid_moment(micros: i64) -> bool {
    minute_text(micros) is Some
}

/// Calls `chrono::DateTime::from_timestamp_micros` and, when it gives a
/// moment, formats its naive UTC time with `%d.%m.%Y %H:%M`. Claimed: the
/// result is [`minute_text`] of the argument.
#[verifier::external_body]
pub(crate) fn format_minute(micros: i64) -> (r: Option<String>)
    ensures
        opt_text(r) == minute_text(micros),
{
    match chrono::DateTime::from_timestamp_micros(micros) {
        Some(d) => Some(d.naive_utc().format("%d.%m.%Y %H:%M").to_string()),
        None => None,
    }
}

/// Calls `chrono::Utc::now` and returns its `timestamp_micros`. The value
/// depends on the clock; what is claimed is only that chrono can represent
/// it again (chrono documents that `from_timestamp_micros` round-trips with
/// `timestamp_micros`).
#[verifier::external_body]
pub(crate) fn now_micros() -> (r: i64)
    ensures
        valid_moment(r),
{
    chrono::Utc::now().timestamp_micros()
}

} // verus!
