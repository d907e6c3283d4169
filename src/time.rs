//! Instants as whole seconds since the Unix epoch, UTC, and their text.

use vstd::prelude::*;

verus! {

/// The RFC 3339 text (`YYYY-MM-DDTHH:MM:SSZ`) of the UTC instant `secs`
/// seconds after the epoch; `None` outside the representable calendar.
pub uninterp spec fn rfc3339_utc(secs: int) -> Option<Seq<char>>;

/// Relies on chrono's `DateTime::from_timestamp` and
/// `DateTime::to_rfc3339_opts` (whole seconds, `Z` offset): the text of an
/// instant, absent where chrono cannot represent it.
#[verifier::external_body]
pub fn utc_text(secs: i64) -> (r: Option<String>)
    ensures
        match r {
            Some(t) => rfc3339_utc(secs as int) == Some(t@),
            None => rfc3339_utc(secs as int) is None,
        },
{
    match chrono::DateTime::from_timestamp(secs, 0) {
        Some(d) => Some(d.to_rfc3339_opts(chrono::SecondsFormat::Secs, true)),
        None => None,
    }
}

/// Relies on chrono's `Utc::now`: the current instant, whole seconds.
#[verifier::external_body]
pub fn utc_now() -> (r: i64) {
    chrono::Utc::now().timestamp()
}

/// Relies on chrono's `Local::now` and its `format`: the current local time
/// as `YYYY-MM-DDTHHMM`.
#[verifier::external_body]
pub fn local_minute_stamp() -> (r: String) {
    chrono::Local::now().format("%Y-%m-%dT%H%M").to_string()
}

/// The text written for an instant: its RFC 3339 form, or `~` where there is none.
pub open spec fn instant_text(secs: int) -> Seq<char> {
    match rfc3339_utc(secs) {
        Some(t) => t,
        None => "~"@,
    }
}

/// Appends the text of an instant to `out`.
pub fn push_instant(out: &mut String, secs: i64)
    ensures
        final(out)@ == old(out)@ + instant_text(secs as int),
{
    match utc_text(secs) {
        Some(t) => out.append(t.as_str()),
        None => out.append("~"),
    }
}

} // verus!
