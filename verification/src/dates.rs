use vstd::prelude::*;
use vstd::arithmetic::div_mod::{
    lemma_fundamental_div_mod, lemma_fundamental_div_mod_converse, lemma_mod_multiples_vanish,
};
use chrono::Datelike;

verus! {

/// Earliest year a calendar date may carry (the range chrono's dates cover).
pub const MIN_YEAR: i32 = -262143;

/// Latest year a calendar date may carry (the range chrono's dates cover).
pub const MAX_YEAR: i32 = 262142;

/// A calendar date in the proleptic Gregorian calendar, time of day discarded.
#[derive(Clone, Copy, PartialEq, Eq, Structural, Debug)]
pub struct Date {
    pub year: i32,
    pub month: u32,
    pub day: u32,
}

/// A calendar date with a time of day, as written into the sink.
#[derive(Clone, Copy, PartialEq, Eq, Structural, Debug)]
pub struct Timestamp {
    pub date: Date,
    pub hour: u32,
    pub minute: u32,
    pub second: u32,
}

pub open spec fn spec_is_leap_year(y: int) -> bool {
    y % 4 == 0 && (y % 100 != 0 || y % 400 == 0)
}

pub open spec fn spec_days_in_month(y: int, m: int) -> int {
    if m == 2 {
        if spec_is_leap_year(y) {
            29
        } else {
            28
        }
    } else if m == 4 || m == 6 || m == 9 || m == 11 {
        30
    } else {
        31
    }
}

pub open spec fn date_valid(d: Date) -> bool {
    &&& MIN_YEAR <= d.year <= MAX_YEAR
    &&& 1 <= d.month <= 12
    &&& 1 <= d.day <= spec_days_in_month(d.year as int, d.month as int)
}

pub open spec fn timestamp_valid(t: Timestamp) -> bool {
    &&& date_valid(t.date)
    &&& t.hour < 24
    &&& t.minute < 60
    &&& t.second < 60
}

/// Whether the value is a real calendar date in the supported year range.
pub fn is_valid_date(d: &Date) -> (r: bool)
    ensures
        r == date_valid(*d),
{
    MIN_YEAR <= d.year && d.year <= MAX_YEAR && 1 <= d.month && d.month <= 12 && 1 <= d.day
        && d.day <= days_in_month(d.year, d.month)
}

/// Whether the value is a real calendar date with a real time of day.
pub fn is_valid_timestamp(t: &Timestamp) -> (r: bool)
    ensures
        r == timestamp_valid(*t),
{
    is_valid_date(&t.date) && t.hour < 24 && t.minute < 60 && t.second < 60
}

pub fn is_leap_year(year: i32) -> (r: bool)
    ensures
        r == spec_is_leap_year(year as int),
{
    // Shifting by a multiple of 400 keeps divisibility by 4, 100 and 400 and
    // makes the operand non-negative for every i32 year.
    let y: i64 = year as i64 + 2147484000;
    proof {
        lemma_mod_multiples_vanish(536871000, year as int, 4);
        lemma_mod_multiples_vanish(21474840, year as int, 100);
        lemma_mod_multiples_vanish(5368710, year as int, 400);
    }
    y % 4 == 0 && (y % 100 != 0 || y % 400 == 0)
}

pub fn days_in_month(year: i32, month: u32) -> (r: u32)
    requires
        1 <= month <= 12,
    ensures
        r as int == spec_days_in_month(year as int, month as int),
{
    if month == 2 {
        if is_leap_year(year) {
            29
        } else {
            28
        }
    } else if month == 4 || month == 6 || month == 9 || month == 11 {
        30
    } else {
        31
    }
}

/// `a` is on or before `b` in calendar order.
pub open spec fn spec_date_le(a: Date, b: Date) -> bool {
    ||| a.year < b.year
    ||| (a.year == b.year && a.month < b.month)
    ||| (a.year == b.year && a.month == b.month && a.day <= b.day)
}

pub fn date_le(a: &Date, b: &Date) -> (r: bool)
    ensures
        r == spec_date_le(*a, *b),
{
    if a.year != b.year {
        a.year < b.year
    } else if a.month != b.month {
        a.month < b.month
    } else {
        a.day <= b.day
    }
}

/// The date `n` calendar months before `d`: month arithmetic over the whole
/// month count, the day clamped to the length of the resulting month, and
/// `None` when the resulting year falls outside the supported range.
pub open spec fn spec_sub_months(d: Date, n: int) -> Option<Date> {
    let total = (d.year as int) * 12 + (d.month as int) - 1 - n;
    let y = total / 12;
    let m = total % 12 + 1;
    if MIN_YEAR <= y <= MAX_YEAR {
        Some(
            Date {
                year: y as i32,
                month: m as u32,
                day: if d.day as int <= spec_days_in_month(y, m) {
                    d.day
                } else {
                    spec_days_in_month(y, m) as u32
                },
            },
        )
    } else {
        None
    }
}

pub fn sub_months(d: &Date, n: u32) -> (r: Option<Date>)
    requires
        date_valid(*d),
    ensures
        r == spec_sub_months(*d, n as int),
        r is Some ==> date_valid(r->Some_0),
{
    let total: i64 = (d.year as i64) * 12 + (d.month as i64) - 1 - (n as i64);
    // A multiple of 12 large enough to make the month count non-negative.
    let shifted: i64 = total + 4320000000;
    let q: i64 = shifted / 12;
    let rm: i64 = shifted % 12;
    let y2: i64 = q - 360000000;
    proof {
        lemma_fundamental_div_mod(shifted as int, 12);
        lemma_fundamental_div_mod_converse(total as int, 12, y2 as int, rm as int);
    }
    if y2 < MIN_YEAR as i64 || y2 > MAX_YEAR as i64 {
        return None;
    }
    let year: i32 = y2 as i32;
    let month: u32 = (rm + 1) as u32;
    let dim: u32 = days_in_month(year, month);
    let day: u32 = if d.day <= dim {
        d.day
    } else {
        dim
    };
    Some(Date { year, month, day })
}

/// The triple of year, month and day a date carries.
pub open spec fn date_model(d: Date) -> (int, int, int) {
    (d.year as int, d.month as int, d.day as int)
}

/// The calendar date an internet-message-format (RFC 2822) timestamp names,
/// in the offset it carries; `None` where the text is not such a timestamp.
pub uninterp spec fn rfc2822_date(s: Seq<char>) -> Option<(int, int, int)>;

/// The calendar date an RFC 3339 timestamp names, in the offset it carries;
/// `None` where the text is not such a timestamp.
pub uninterp spec fn rfc3339_date(s: Seq<char>) -> Option<(int, int, int)>;

/// The calendar date a bare `YYYY-MM-DD` text names; `None` where the text
/// is not such a date.
pub uninterp spec fn ymd_date(s: Seq<char>) -> Option<(int, int, int)>;

/// Relies on chrono's `DateTime::parse_from_rfc2822` and `date_naive`: the
/// parsed calendar date is a function of the input text alone, and every
/// date chrono yields is a valid Gregorian date in chrono's year range.
#[verifier::external_body]
fn parse_rfc2822_date(s: &String) -> (r: Option<Date>)
    ensures
        match r {
            Some(d) => rfc2822_date(s@) == Some(date_model(d)) && date_valid(d),
            None => rfc2822_date(s@) is None,
        },
{
    match chrono::DateTime::parse_from_rfc2822(s.as_str()) {
        Ok(dt) => {
            let nd = dt.date_naive();
            Some(Date { year: nd.year(), month: nd.month(), day: nd.day() })
        },
        Err(_) => None,
    }
}

/// Relies on chrono's `DateTime::parse_from_rfc3339` and `date_naive`: the
/// parsed calendar date is a function of the input text alone, and every
/// date chrono yields is a valid Gregorian date in chrono's year range.
#[verifier::external_body]
fn parse_rfc3339_date(s: &String) -> (r: Option<Date>)
    ensures
        match r {
            Some(d) => rfc3339_date(s@) == Some(date_model(d)) && date_valid(d),
            None => rfc3339_date(s@) is None,
        },
{
    match chrono::DateTime::parse_from_rfc3339(s.as_str()) {
        Ok(dt) => {
            let nd = dt.date_naive();
            Some(Date { year: nd.year(), month: nd.month(), day: nd.day() })
        },
        Err(_) => None,
    }
}

/// Relies on chrono's `NaiveDate::parse_from_str` with the `%Y-%m-%d`
/// format: the parsed calendar date is a function of the input text alone,
/// and every date chrono yields is a valid Gregorian date in chrono's year
/// range.
#[verifier::external_body]
fn parse_ymd_date(s: &String) -> (r: Option<Date>)
    ensures
        match r {
            Some(d) => ymd_date(s@) == Some(date_model(d)) && date_valid(d),
            None => ymd_date(s@) is None,
        },
{
    match chrono::NaiveDate::parse_from_str(s.as_str(), "%Y-%m-%d") {
        Ok(nd) => Some(Date { year: nd.year(), month: nd.month(), day: nd.day() }),
        Err(_) => None,
    }
}

/// The date `parse_date` normalizes a raw timestamp to: the first of the
/// three accepted formats that matches, `None` where none does.
pub open spec fn spec_parse_date(s: Seq<char>) -> Option<(int, int, int)> {
    if rfc2822_date(s) is Some {
        rfc2822_date(s)
    } else if rfc3339_date(s) is Some {
        rfc3339_date(s)
    } else {
        ymd_date(s)
    }
}

/// Normalizes a raw timestamp to a calendar date, trying in order an
/// RFC 2822 timestamp, an RFC 3339 timestamp and a bare `YYYY-MM-DD` date;
/// absence is the only failure signal.
pub fn parse_date(input: &String) -> (r: Option<Date>)
    ensures
        match r {
            Some(d) => spec_parse_date(input@) == Some(date_model(d)) && date_valid(d),
            None => spec_parse_date(input@) is None,
        },
{
    if let Some(d) = parse_rfc2822_date(input) {
        return Some(d);
    }
    if let Some(d) = parse_rfc3339_date(input) {
        return Some(d);
    }
    parse_ymd_date(input)
}

} // verus!
