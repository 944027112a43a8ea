//! The date of signing, as the signed header carries it.

use vstd::prelude::*;

verus! {

/// The last second of the year 9999, counted from the start of 1970.
pub const LAST_SECOND_OF_9999: i64 = 253_402_300_799;

/// The pattern of the date: year, month, day, `T`, hour, minute, second, `Z`.
pub open spec fn date_pattern() -> Seq<char> {
    "%Y%m%dT%H%M%SZ"@
}

/// What `chrono` writes for the UTC time that lies `unix_seconds` after the
/// start of 1970, under a pattern; `None` for a time outside the years that
/// `chrono` can hold.
pub uninterp spec fn utc_text(unix_seconds: int, pattern: Seq<char>) -> Option<Seq<char>>;

/// The date of signing for a time: `YYYYMMDDTHHMMSSZ`, in UTC.
pub open spec fn signing_date(unix_seconds: int) -> Option<Seq<char>> {
    utc_text(unix_seconds, date_pattern())
}

/// Whether a date is there and has the form `YYYYMMDDTHHMMSSZ`: sixteen
/// characters, the `T` and the `Z` in their places and decimal digits in all
/// others.
pub open spec fn is_plain_date(date: Option<Seq<char>>) -> bool {
    &&& date matches Some(text)
    &&& text.len() == 16
    &&& text[8] == 'T'
    &&& text[15] == 'Z'
    &&& forall|i: int| 0 <= i < 16 && i != 8 && i != 15 ==> '0' <= #[trigger] text[i] <= '9'
}

/// What is known of the date for a time. Every time from 1970 to the end of
/// 9999 has a date, of the form `YYYYMMDDTHHMMSSZ`. A date outside these
/// years, where there is one, may have a longer year with a sign, and up to
/// nineteen characters.
pub open spec fn date_is_sized(unix_seconds: int) -> bool {
    &&& signing_date(unix_seconds) matches Some(date) ==> 16 <= date.len() <= 19
    &&& 0 <= unix_seconds <= LAST_SECOND_OF_9999 ==> is_plain_date(signing_date(unix_seconds))
}

/// A text that may be absent, as a mathematical value.
pub open spec fn optional_text(text: Option<String>) -> Option<Seq<char>> {
    match text {
        Some(t) => Some(t@),
        None => None,
    }
}

/// Calls `chrono::DateTime::from_timestamp` and writes the time with
/// `DateTime::format`.
///
/// Trusted: the result depends on the arguments alone and is named
/// [`utc_text`]. A year from 1000 to 9999 is written with four digits, any
/// other with at least four and a sign where it has more or is negative;
/// month, day, hour, minute and second take two digits each. So a time from
/// 1970 to the end of 9999, which `chrono` holds, is written in sixteen
/// characters, and no time in more than nineteen. The pattern is fixed to
/// one that `chrono` can write.
#[verifier::external_body]
fn format_utc(unix_seconds: i64, pattern: &str) -> (r: Option<String>)
    requires
        pattern@ == date_pattern(),
    ensures
        optional_text(r) == utc_text(unix_seconds as int, pattern@),
        r matches Some(date) ==> 16 <= date@.len() <= 19,
        0 <= unix_seconds <= LAST_SECOND_OF_9999 ==> is_plain_date(optional_text(r)),
{
    match chrono::DateTime::from_timestamp(unix_seconds, 0) {
        Some(time) => Some(time.format(pattern).to_string()),
        None => None,
    }
}

/// Writes the date of signing for a time, given in seconds since the start
/// of 1970. `None` for a time outside the years that can be written.
pub fn date_of(unix_seconds: i64) -> (r: Option<String>)
    ensures
        optional_text(r) == signing_date(unix_seconds as int),
        date_is_sized(unix_seconds as int),
{
    format_utc(unix_seconds, "%Y%m%dT%H%M%SZ")
}

} // verus!
