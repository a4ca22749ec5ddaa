//! Calendar text conversions delegated to the chrono crate.
//!
//! Calendar formatting and fixed-format calendar parsing are functions of
//! their arguments alone; their results are named here and the rest of
//! the crate reasons over those names.  The process-local UTC offset is
//! time- and environment-dependent, so only its magnitude is stated.

use vstd::prelude::*;

verus! {

/// The calendar text chrono renders for an instant (for four-digit
/// years, `YYYY-MM-DD HH:MM:SS`), or nothing when the instant lies
/// outside chrono's calendar span.
pub uninterp spec fn calendar_text_of(secs: i64) -> Option<Seq<char>>;

/// What chrono's fixed-format calendar parser yields on a text: seconds
/// from the epoch, or nothing when the text does not match the format.
pub uninterp spec fn chrono_parse_of(s: Seq<char>, fmt: Seq<char>) -> Option<i64>;

/// The calendar format of EXIF display texts.
pub open spec fn exif_fmt() -> Seq<char> {
    "%Y-%m-%d %H:%M:%S"@
}

/// The calendar format of the vendor maker-note timestamp.
pub open spec fn sony_fmt() -> Seq<char> {
    "%Y:%m:%d %H:%M:%S"@
}

/// Relies on `chrono::DateTime::from_timestamp` and the `Display` of
/// `chrono::NaiveDateTime`: the text is a function of the seconds alone,
/// and `None` comes exactly on chrono's out-of-range seconds.
#[verifier::external_body]
pub(crate) fn format_timestamp(secs: i64) -> (r: Option<String>)
    ensures
        r is Some <==> calendar_text_of(secs) is Some,
        r matches Some(t) ==> calendar_text_of(secs) == Some(t@),
{
    chrono::DateTime::from_timestamp(secs, 0).map(|d| d.naive_utc().to_string())
}

/// Relies on `chrono::NaiveDateTime::parse_from_str` and
/// `and_utc().timestamp()`: the parse depends on the text and the format
/// alone, and fails exactly when the text does not match.
#[verifier::external_body]
pub(crate) fn parse_calendar(s: &str, fmt: &str) -> (r: Option<i64>)
    ensures
        r == chrono_parse_of(s@, fmt@),
{
    match chrono::NaiveDateTime::parse_from_str(s, fmt) {
        Ok(d) => Some(d.and_utc().timestamp()),
        Err(_) => None,
    }
}

/// Relies on `chrono::Local::now` and `FixedOffset::utc_minus_local`:
/// the value varies with the clock and the environment, but every
/// `FixedOffset` chrono constructs is under a day in magnitude.
#[verifier::external_body]
pub(crate) fn current_utc_minus_local() -> (r: i64)
    ensures
        -86400 < r < 86400,
{
    chrono::Local::now().offset().utc_minus_local() as i64
}

/// Parses the vendor maker-note timestamp, `YYYY:MM:DD HH:MM:SS`, to
/// seconds from the epoch.
pub fn sony_time(date: &str) -> (r: Option<i64>)
    ensures
        r == chrono_parse_of(date@, sony_fmt()),
{
    parse_calendar(date, "%Y:%m:%d %H:%M:%S")
}

} // verus!
