use vstd::prelude::*;

verus! {

/// A calendar date as plain year, month and day numbers, as read back from
/// the date parser; `month` and `day` are one-based.
#[derive(Clone, Copy, PartialEq, Eq, Structural, Debug)]
pub struct Date {
    pub year: i32,
    pub month: u8,
    pub day: u8,
}

/// Chronological order: years, then months, then days.
pub open spec fn date_le(a: Date, b: Date) -> bool {
    ||| a.year < b.year
    ||| (a.year == b.year && a.month < b.month)
    ||| (a.year == b.year && a.month == b.month && a.day <= b.day)
}

pub fn date_le_exec(a: &Date, b: &Date) -> (r: bool)
    ensures
        r == date_le(*a, *b),
{
    if a.year != b.year {
        a.year < b.year
    } else if a.month != b.month {
        a.month < b.month
    } else {
        a.day <= b.day
    }
}

/// What chrono's `NaiveDate::parse_from_str` with format `%Y-%m-%d` makes of
/// a text: `None` where parsing fails, otherwise the year, month and day.
/// The result depends on the text alone.
pub uninterp spec fn chrono_ymd(s: Seq<char>) -> Option<(int, int, int)>;

/// What chrono renders for a date under `%a, %d %b %Y 00:00:00 +0000`
/// (the RFC-822-style publication date of an RSS item), or the empty text
/// where the numbers form no calendar date. A function of the numbers alone.
pub uninterp spec fn rss_date_of(y: int, m: int, d: int) -> Seq<char>;

/// Relies on `chrono::NaiveDate::parse_from_str` with format `%Y-%m-%d`,
/// and on `Datelike::{year, month, day}` to read the parsed date back:
/// parsing is deterministic in the text, and a parsed month is 1..=12,
/// a parsed day 1..=31.
#[verifier::external_body]
pub(crate) fn chrono_parse_ymd(s: &str) -> (r: Option<Date>)
    ensures
        r is Some <==> chrono_ymd(s@) is Some,
        r matches Some(d) ==> chrono_ymd(s@) == Some(
            (d.year as int, d.month as int, d.day as int),
        ) && 1 <= d.month <= 12 && 1 <= d.day <= 31,
{
    match chrono::NaiveDate::parse_from_str(s, "%Y-%m-%d") {
        Ok(nd) => Some(
            Date {
                year: chrono::Datelike::year(&nd),
                month: chrono::Datelike::month(&nd) as u8,
                day: chrono::Datelike::day(&nd) as u8,
            },
        ),
        Err(_) => None,
    }
}

/// Relies on `chrono::NaiveDate::from_ymd_opt` and `NaiveDate::format` with
/// `%a, %d %b %Y 00:00:00 +0000`: the rendering is a function of the three
/// numbers alone (chrono's weekday and month names do not vary).
#[verifier::external_body]
pub(crate) fn chrono_rss_date(d: &Date) -> (r: String)
    ensures
        r@ == rss_date_of(d.year as int, d.month as int, d.day as int),
{
    match chrono::NaiveDate::from_ymd_opt(d.year, d.month as u32, d.day as u32) {
        Some(nd) => nd.format("%a, %d %b %Y 00:00:00 +0000").to_string(),
        None => String::new(),
    }
}

} // verus!
