//! Readings of the clocks, and points in time as text.

use std::time::Instant;
use vstd::prelude::*;

verus! {

/// `std::time::Instant`, a reading of the monotonic clock.
#[verifier::external_type_specification]
#[verifier::external_body]
pub struct ExInstant(Instant);

/// `Instant::now` of std reads the monotonic clock. Nothing is claimed of the
/// reading.
pub assume_specification[ Instant::now ]() -> (res: Instant)
;

/// `Instant::elapsed` of std, in nanoseconds: how long ago an earlier reading
/// of the monotonic clock was. Nothing is claimed of the time in between.
#[verifier::external_body]
pub(crate) fn nanos_since(origin: &Instant) -> u128 {
    origin.elapsed().as_nanos()
}

/// A reading of both clocks.
#[derive(Clone, Copy, Debug, PartialEq, Eq, Structural)]
pub struct Moment {
    /// Nanoseconds since the Unix epoch.
    pub utc_nanos: i128,
    /// Nanoseconds of the monotonic clock since an origin of its own.
    pub monotonic_nanos: u128,
}

/// The text that RFC 3339 gives a point in time, which is a number of
/// nanoseconds since the Unix epoch.
pub uninterp spec fn rfc3339_text(utc_nanos: i128) -> Option<Seq<char>>;

/// The point in time that a text means by RFC 3339, in nanoseconds since the
/// Unix epoch.
pub uninterp spec fn rfc3339_nanos(text: Seq<char>) -> Option<i128>;

/// `time::OffsetDateTime::now_utc`, in nanoseconds since the Unix epoch.
/// Nothing is claimed of the reading. The system clock has to show a date that
/// `time` can represent.
#[verifier::external_body]
pub(crate) fn utc_now_nanos() -> i128 {
    time::OffsetDateTime::now_utc().unix_timestamp_nanos()
}

/// `time::OffsetDateTime::format` with the well-known format `Rfc3339`, for a
/// point in time in UTC.
///
/// There is no text for a point in time outside the years 0 to 9999. Where
/// there is one, it is written to the nanosecond, so that parsing it gives the
/// point in time back.
#[verifier::external_body]
pub(crate) fn format_rfc3339(utc_nanos: i128) -> (res: Option<String>)
    ensures
        crate::resource::optional_text(res) == rfc3339_text(utc_nanos),
        res matches Some(text) ==> rfc3339_nanos(text@) == Some(utc_nanos),
{
    let moment = time::OffsetDateTime::from_unix_timestamp_nanos(utc_nanos).ok()?;
    moment.format(&time::format_description::well_known::Rfc3339).ok()
}

/// `time::OffsetDateTime::parse` with the well-known format `Rfc3339`. The
/// point in time depends on the text alone, and `rfc3339_nanos` names it.
#[verifier::external_body]
pub(crate) fn parse_rfc3339(text: &str) -> (res: Option<i128>)
    ensures
        res == rfc3339_nanos(text@),
{
    match time::OffsetDateTime::parse(text, &time::format_description::well_known::Rfc3339) {
        Ok(moment) => Some(moment.unix_timestamp_nanos()),
        Err(_) => None,
    }
}

} // verus!
