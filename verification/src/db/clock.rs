//! Timestamps: the system clock and RFC 3339 text, through `chrono`.

use vstd::prelude::*;

verus! {

/// The RFC 3339 text that `chrono` writes (`DateTime::<Utc>::to_rfc3339`) for the instant
/// `secs` seconds and `nanos` nanoseconds after the Unix epoch, as
/// `DateTime::<Utc>::from_timestamp(secs, nanos)` builds it; `None` when chrono cannot
/// represent that instant.
pub uninterp spec fn rfc3339_text(secs: i64, nanos: u32) -> Option<Seq<char>>;

/// Whether `t` is the RFC 3339 text of some instant.
pub open spec fn is_rfc3339_instant(t: Seq<char>) -> bool {
    exists|secs: i64, nanos: u32| #[trigger] rfc3339_text(secs, nanos) == Some(t)
}

/// The current time in RFC 3339 form: `chrono::Utc::now().to_rfc3339()`. `Utc::now` builds
/// its value with `DateTime::from_timestamp` from the system clock, so the contract claims
/// that the text is `rfc3339_text` of some instant; which instant depends on the clock.
/// (`Utc::now` panics when the system clock is set before 1970.)
#[verifier::external_body]
pub(crate) fn now_rfc3339() -> (r: String)
    ensures
        is_rfc3339_instant(r@),
{
    chrono::Utc::now().to_rfc3339()
}

/// The current time as seconds and nanoseconds since the Unix epoch:
/// `Utc::now()` then `timestamp()` and `timestamp_subsec_nanos()`. `Utc::now` takes them from
/// `SystemTime::duration_since(UNIX_EPOCH)`, so the contract claims that the seconds are not
/// negative and the nanoseconds below one second; their values depend on the clock.
#[verifier::external_body]
pub(crate) fn now_unix() -> (r: (i64, u32))
    ensures
        r.0 >= 0,
        r.1 < 1_000_000_000,
{
    let now = chrono::Utc::now();
    (now.timestamp(), now.timestamp_subsec_nanos())
}

/// Calls `DateTime::<Utc>::from_timestamp(secs, nanos)` and `to_rfc3339`; the contract claims
/// that the result is `rfc3339_text(secs, nanos)`.
#[verifier::external_body]
pub(crate) fn format_rfc3339(secs: i64, nanos: u32) -> (r: Option<String>)
    ensures
        crate::db::query::opt_view(r) == rfc3339_text(secs, nanos),
{
    chrono::DateTime::<chrono::Utc>::from_timestamp(secs, nanos).map(|d| d.to_rfc3339())
}

/// The RFC 3339 text of the instant `minutes` minutes before `secs` seconds (and `nanos`
/// nanoseconds) after the epoch; `None` when that instant cannot be represented.
pub open spec fn cutoff_text(secs: i64, nanos: u32, minutes: i64) -> Option<Seq<char>> {
    let c = secs - 60 * minutes;
    if i64::MIN <= c <= i64::MAX {
        rfc3339_text(c as i64, nanos)
    } else {
        None
    }
}

/// The time `minutes` minutes before the given instant, in RFC 3339 form.
pub fn minutes_before_rfc3339(secs: i64, nanos: u32, minutes: i64) -> (r: Option<String>)
    ensures
        crate::db::query::opt_view(r) == cutoff_text(secs, nanos, minutes),
{
    let c: i128 = secs as i128 - 60 * (minutes as i128);
    if c < i64::MIN as i128 || c > i64::MAX as i128 {
        return None;
    }
    format_rfc3339(c as i64, nanos)
}

} // verus!
