//! A local wall-clock reading as plain values, and its rendering through
//! chrono's strftime-style patterns.
use std::fmt::Write;
use vstd::prelude::*;

verus! {

/// A local date and time to the second, with its offset from UTC.
#[derive(Clone, Copy, Debug, PartialEq, Eq, Structural)]
pub struct LocalTime {
    pub year: i32,
    pub month: u32,
    pub day: u32,
    pub hour: u32,
    pub minute: u32,
    pub second: u32,
    /// Local time minus UTC, in seconds.
    pub offset_seconds: i32,
}

pub open spec fn is_leap_year(y: int) -> bool {
    (y % 4 == 0 && y % 100 != 0) || y % 400 == 0
}

pub open spec fn days_in_month(y: int, m: int) -> int {
    if m == 2 {
        if is_leap_year(y) {
            29
        } else {
            28
        }
    } else if m == 4 || m == 6 || m == 9 || m == 11 {
        30
    } else {
        31
    }
}

/// A real calendar day of a four-digit year, a time of day, and an offset of
/// less than a day.
pub open spec fn valid_time(
    year: int,
    month: int,
    day: int,
    hour: int,
    minute: int,
    second: int,
    offset_seconds: int,
) -> bool {
    &&& 0 <= year <= 9999
    &&& 1 <= month <= 12
    &&& 1 <= day <= days_in_month(year, month)
    &&& hour < 24
    &&& minute < 60
    &&& second < 60
    &&& -86400 < offset_seconds < 86400
}

impl LocalTime {
    pub open spec fn wf(self) -> bool {
        valid_time(
            self.year as int,
            self.month as int,
            self.day as int,
            self.hour as int,
            self.minute as int,
            self.second as int,
            self.offset_seconds as int,
        )
    }

    /// The reading with these fields, if they name a valid local time.
    pub fn new(
        year: i32,
        month: u32,
        day: u32,
        hour: u32,
        minute: u32,
        second: u32,
        offset_seconds: i32,
    ) -> (r: Option<LocalTime>)
        ensures
            r is Some <==> valid_time(
                year as int,
                month as int,
                day as int,
                hour as int,
                minute as int,
                second as int,
                offset_seconds as int,
            ),
            r matches Some(t) ==> t.wf() && t == (LocalTime {
                year,
                month,
                day,
                hour,
                minute,
                second,
                offset_seconds,
            }),
    {
        if year < 0 || year > 9999 || month < 1 || month > 12 || day < 1 {
            return None;
        }
        let leap = (year % 4 == 0 && year % 100 != 0) || year % 400 == 0;
        let last: u32 = if month == 2 {
            if leap {
                29
            } else {
                28
            }
        } else if month == 4 || month == 6 || month == 9 || month == 11 {
            30
        } else {
            31
        };
        if day > last || hour >= 24 || minute >= 60 || second >= 60 || offset_seconds <= -86400
            || offset_seconds >= 86400 {
            return None;
        }
        Some(LocalTime { year, month, day, hour, minute, second, offset_seconds })
    }
}

pub open spec fn digit(d: int) -> char {
    seq!['0', '1', '2', '3', '4', '5', '6', '7', '8', '9'][d]
}

/// `n` (below 100) as two decimal digits, zero-padded.
pub open spec fn two_digits(n: int) -> Seq<char> {
    seq![digit(n / 10), digit(n % 10)]
}

/// `n` (below 10000) as four decimal digits, zero-padded.
pub open spec fn four_digits(n: int) -> Seq<char> {
    two_digits(n / 100) + two_digits(n % 100)
}

/// The pattern `%H:%M`.
pub open spec fn clock_pattern() -> Seq<char> {
    seq!['%', 'H', ':', '%', 'M']
}

/// The pattern `%Y-%m-%d`.
pub open spec fn default_date_pattern() -> Seq<char> {
    seq!['%', 'Y', '-', '%', 'm', '-', '%', 'd']
}

/// `HH:MM`, as `%H:%M` renders it.
pub open spec fn clock_label(t: LocalTime) -> Seq<char> {
    two_digits(t.hour as int) + seq![':'] + two_digits(t.minute as int)
}

/// `YYYY-MM-DD`, as `%Y-%m-%d` renders it.
pub open spec fn date_stem(t: LocalTime) -> Seq<char> {
    four_digits(t.year as int) + seq!['-'] + two_digits(t.month as int) + seq!['-'] + two_digits(
        t.day as int,
    )
}

/// What chrono writes for `t` under a strftime-style pattern; `None` where
/// the pattern cannot be rendered (an unknown specifier, say).
pub uninterp spec fn strftime_text(pattern: Seq<char>, t: LocalTime) -> Option<Seq<char>>;

/// Relies on chrono's `DateTime::<FixedOffset>::format` written through
/// `Display`: the text depends on the pattern and the reading alone; `%Y`
/// writes a year of 0 to 9999 as four zero-padded digits, and `%m`, `%d`,
/// `%H`, `%M` write two zero-padded digits; a pattern that chrono cannot
/// render makes the write fail.
#[verifier::external_body]
pub(crate) fn format_time(pattern: &str, t: &LocalTime) -> (r: Option<String>)
    requires
        t.wf(),
    ensures
        r is Some <==> strftime_text(pattern@, *t) is Some,
        r matches Some(s) ==> strftime_text(pattern@, *t) == Some(s@),
        pattern@ == clock_pattern() ==> r is Some && r->0@ == clock_label(*t),
        pattern@ == default_date_pattern() ==> r is Some && r->0@ == date_stem(*t),
{
    let offset = chrono::FixedOffset::east_opt(t.offset_seconds)?;
    let date = chrono::NaiveDate::from_ymd_opt(t.year, t.month, t.day)?;
    let local = date.and_hms_opt(t.hour, t.minute, t.second)?;
    let stamp = local.and_local_timezone(offset).single()?;
    let mut out = String::new();
    write!(out, "{}", stamp.format(pattern)).ok()?;
    Some(out)
}

/// The `HH:MM` label of `t`.
pub fn clock_text(t: &LocalTime) -> (r: String)
    requires
        t.wf(),
    ensures
        r@ == clock_label(*t),
{
    let pattern = "%H:%M";
    proof {
        reveal_strlit("%H:%M");
    }
    assert(pattern@ =~= clock_pattern());
    match format_time(pattern, t) {
        Some(s) => s,
        None => String::new(),
    }
}

} // verus!
