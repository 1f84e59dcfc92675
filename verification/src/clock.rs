use vstd::prelude::*;

verus! {

/// Relies on `chrono::Utc::now` and `chrono::DateTime::to_rfc3339`: the
/// current instant, rendered as an RFC 3339 timestamp.  The value depends on
/// the clock, so nothing is promised about it.
#[verifier::external_body]
pub(crate) fn now_utc_rfc3339() -> String {
    chrono::Utc::now().to_rfc3339()
}

/// Relies on `chrono::Local::now` and `chrono::DateTime::to_rfc3339`: the
/// current instant in the machine's local zone, rendered as an RFC 3339
/// timestamp.  The value depends on the clock, so nothing is promised.
#[verifier::external_body]
pub(crate) fn now_local_rfc3339() -> String {
    chrono::Local::now().to_rfc3339()
}

/// Relies on `chrono_tz::Tz::from_str` and `chrono::Utc::now`: the current
/// wall-clock time in the named timezone, as seconds since the epoch of the
/// naive local datetime, or `None` when the name is not a known timezone.
/// The value depends on the clock, so nothing is promised about it.
#[verifier::external_body]
pub(crate) fn now_in_timezone(tz_name: &str) -> Option<i64> {
    let tz: chrono_tz::Tz = tz_name.parse().ok()?;
    let local = chrono::Utc::now().with_timezone(&tz).naive_local();
    Some(local.and_utc().timestamp())
}

/// Relies on `chrono::Utc::now`: the current wall-clock time as seconds since
/// the epoch.  The value depends on the clock, so nothing is promised.
#[verifier::external_body]
pub(crate) fn now_utc_secs() -> i64 {
    chrono::Utc::now().timestamp()
}

} // verus!
