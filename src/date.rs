use chrono::Datelike;
use vstd::prelude::*;
use vstd::string::*;

verus! {

/// A calendar date, as the year, the month (1 to 12) and the day of the month.
#[derive(Debug, Clone, Copy, PartialEq, Eq, Structural)]
pub struct Date {
    pub year: i32,
    pub month: u32,
    pub day: u32,
}

/// A leap year of the Gregorian calendar: divisible by 4, and not by 100 unless by 400.
pub open spec fn leap_year(year: int) -> bool {
    let a = if year < 0 {
        -year
    } else {
        year
    };
    (a % 4 == 0 && a % 100 != 0) || a % 400 == 0
}

/// The number of days of a month (1 to 12) of a year.
pub open spec fn days_in_month(year: int, month: int) -> int {
    if month == 2 {
        if leap_year(year) {
            29
        } else {
            28
        }
    } else if month == 4 || month == 6 || month == 9 || month == 11 {
        30
    } else {
        31
    }
}

/// A year, month and day that name a day of the Gregorian calendar.
pub open spec fn calendar_date(ymd: (int, int, int)) -> bool {
    1 <= ymd.1 <= 12 && 1 <= ymd.2 <= days_in_month(ymd.0, ymd.1)
}

impl Date {
    /// The year, month and day as mathematical integers.
    pub open spec fn ymd(self) -> (int, int, int) {
        (self.year as int, self.month as int, self.day as int)
    }

    /// The date is a day of the Gregorian calendar.
    pub open spec fn valid(self) -> bool {
        calendar_date(self.ymd())
    }

    /// Whether the date is a day of the Gregorian calendar.
    pub fn is_valid(&self) -> (r: bool)
        ensures
            r == self.valid(),
    {
        if self.month < 1 || self.month > 12 || self.day < 1 {
            return false;
        }
        let a: u32 = if self.year < 0 {
            (-(self.year as i64)) as u32
        } else {
            self.year as u32
        };
        let leap = (a % 4 == 0 && a % 100 != 0) || a % 400 == 0;
        let days: u32 = if self.month == 2 {
            if leap {
                29
            } else {
                28
            }
        } else if self.month == 4 || self.month == 6 || self.month == 9 || self.month == 11 {
            30
        } else {
            31
        };
        self.day <= days
    }
}

/// The date 0001-01-01, stored as the birthday of a contact whose birthday is not known.
pub open spec fn unset_birthday() -> (int, int, int) {
    (1, 1, 1)
}

/// The placeholder birthday of a contact whose birthday was not given: 0001-01-01.
pub fn default_date() -> (d: Date)
    ensures
        d.ymd() == unset_birthday(),
        d.valid(),
{
    Date { year: 1, month: 1, day: 1 }
}

/// The layout of a birthday in text: year, month and day separated by hyphens.
pub const DATE_FORMAT: &'static str = "%Y-%m-%d";

/// What chrono's `NaiveDate::parse_from_str` reads from a text by a format: the year, month and
/// day of the date, or `None` where the text does not hold a valid date in that format.
pub uninterp spec fn date_parse_of(text: Seq<char>, format: Seq<char>) -> Option<(int, int, int)>;

/// Relies on chrono::NaiveDate::parse_from_str, which reads a date from a text by a strftime-like
/// format or fails, and on Datelike's year, month and day. The result depends on the two
/// strings alone.
#[verifier::external_body]
pub(crate) fn parse_date(text: &str, format: &str) -> (r: Option<Date>)
    ensures
        match r {
            Some(d) => date_parse_of(text@, format@) == Some(d.ymd()),
            None => date_parse_of(text@, format@) is None,
        },
{
    chrono::NaiveDate::parse_from_str(text, format).ok().map(
        |d| Date { year: d.year(), month: d.month(), day: d.day() },
    )
}

/// The date that a text holds in a format: what `date_parse_of` reads, where it is a day of the
/// calendar.
pub open spec fn date_read(text: Seq<char>, format: Seq<char>) -> Option<(int, int, int)> {
    match date_parse_of(text, format) {
        Some(ymd) => if calendar_date(ymd) {
            Some(ymd)
        } else {
            None
        },
        None => None,
    }
}

/// The date that `text` holds in `format` (see `date_read`).
pub fn read_date(text: &str, format: &str) -> (r: Option<Date>)
    ensures
        match r {
            Some(d) => date_read(text@, format@) == Some(d.ymd()) && d.valid(),
            None => date_read(text@, format@) is None,
        },
{
    match parse_date(text, format) {
        Some(d) => if d.is_valid() {
            Some(d)
        } else {
            None
        },
        None => None,
    }
}

/// A character with Unicode's White_Space property: U+0009 to U+000D, U+0020, U+0085, U+00A0,
/// U+1680, U+2000 to U+200A, U+2028, U+2029, U+202F, U+205F and U+3000.
pub open spec fn white_space(c: char) -> bool {
    let v = c as u32;
    ||| 0x09 <= v <= 0x0d
    ||| v == 0x20
    ||| v == 0x85
    ||| v == 0xa0
    ||| v == 0x1680
    ||| 0x2000 <= v <= 0x200a
    ||| v == 0x2028
    ||| v == 0x2029
    ||| v == 0x202f
    ||| v == 0x205f
    ||| v == 0x3000
}

/// Whether `c` has Unicode's White_Space property.
pub fn is_white_space(c: char) -> (r: bool)
    ensures
        r == white_space(c),
{
    let v = c as u32;
    (0x09 <= v && v <= 0x0d) || v == 0x20 || v == 0x85 || v == 0xa0 || v == 0x1680 || (0x2000
        <= v && v <= 0x200a) || v == 0x2028 || v == 0x2029 || v == 0x202f || v == 0x205f || v
        == 0x3000
}

/// `s` holds nothing but white space (the empty text included).
pub open spec fn blank(s: Seq<char>) -> bool {
    forall|i: int| 0 <= i < s.len() ==> white_space(#[trigger] s[i])
}

/// Whether `s` holds nothing but white space.
pub fn is_blank(s: &str) -> (r: bool)
    ensures
        r == blank(s@),
{
    let n = s.unicode_len();
    let mut i: usize = 0;
    while i < n
        invariant
            n == s@.len(),
            i <= n,
            forall|j: int| 0 <= j < i ==> white_space(#[trigger] s@[j]),
        decreases n - i,
    {
        if !is_white_space(s.get_char(i)) {
            return false;
        }
        i = i + 1;
    }
    true
}

/// The birthday that a text gives: the unset date for a blank text, else the `YYYY-MM-DD` date
/// it holds (see `date_read`), or `None` where it holds none.
pub open spec fn birthday_of(text: Seq<char>) -> Option<(int, int, int)> {
    if blank(text) {
        Some(unset_birthday())
    } else {
        date_read(text, DATE_FORMAT@)
    }
}

/// The birthday that `text` gives, or `None` where it is neither blank nor a date.
pub fn parse_birthday(text: &str) -> (r: Option<Date>)
    ensures
        match r {
            Some(d) => birthday_of(text@) == Some(d.ymd()) && d.valid(),
            None => birthday_of(text@) is None,
        },
{
    if is_blank(text) {
        Some(default_date())
    } else {
        read_date(text, DATE_FORMAT)
    }
}

/// Relies on std's SystemTime::now and SystemTime::duration_since(UNIX_EPOCH), read by chrono's
/// DateTime::from_timestamp and DateTime::timestamp_millis: the current time in milliseconds
/// since the Unix epoch, or `None` where the system clock reads a time before 1970 or beyond
/// chrono's range. Nothing is promised of the value; none of these calls panics.
#[verifier::external_body]
fn clock_millis() -> Option<i64> {
    let elapsed = std::time::SystemTime::now().duration_since(std::time::UNIX_EPOCH).ok()?;
    let seconds = i64::try_from(elapsed.as_secs()).ok()?;
    chrono::DateTime::<chrono::Utc>::from_timestamp(seconds, elapsed.subsec_nanos()).map(
        |time| time.timestamp_millis(),
    )
}

/// The current time in milliseconds since the Unix epoch, or the epoch itself (0) where the
/// system clock cannot be read.
pub(crate) fn now_millis() -> i64 {
    match clock_millis() {
        Some(millis) => millis,
        None => 0,
    }
}

} // verus!
