//! Calendar timestamps and their `YYYY-MM-DD HH:MM:SS` rendering.

use vstd::prelude::*;

verus! {

/// Mathematical model of a [`Timestamp`]: the six calendar fields.
pub struct TimestampView {
    pub year: int,
    pub month: int,
    pub day: int,
    pub hour: int,
    pub minute: int,
    pub second: int,
}

/// Gregorian leap years.
pub open spec fn is_leap_year(year: int) -> bool {
    year % 4 == 0 && (year % 100 != 0 || year % 400 == 0)
}

/// Number of days of `month` in `year`; 0 when `month` is no month.
pub open spec fn days_in_month(year: int, month: int) -> int {
    if month == 4 || month == 6 || month == 9 || month == 11 {
        30
    } else if month == 2 {
        if is_leap_year(year) {
            29
        } else {
            28
        }
    } else if 1 <= month <= 12 {
        31
    } else {
        0
    }
}

/// The moment with the given fields.
pub open spec fn moment(
    year: int,
    month: int,
    day: int,
    hour: int,
    minute: int,
    second: int,
) -> TimestampView {
    TimestampView { year, month, day, hour, minute, second }
}

impl TimestampView {
    /// The fields name a moment of the proleptic Gregorian calendar whose
    /// year is written with four digits.
    pub open spec fn valid(self) -> bool {
        &&& 0 <= self.year <= 9999
        &&& 1 <= self.month <= 12
        &&& 1 <= self.day <= days_in_month(self.year, self.month)
        &&& 0 <= self.hour <= 23
        &&& 0 <= self.minute <= 59
        &&& 0 <= self.second <= 59
    }
}

/// The decimal digit for `d`, meaningful for `0 <= d <= 9`.
pub open spec fn digit_char(d: int) -> char {
    (d + 48) as char
}

/// `c` is a decimal digit.
pub open spec fn is_digit(c: char) -> bool {
    '0' <= c <= '9'
}

/// The number a decimal digit stands for.
pub open spec fn digit_value(c: char) -> int {
    c as int - 48
}

/// `n` written with two decimal digits, zero padded.
pub open spec fn two_digits(n: int) -> Seq<char> {
    seq![digit_char(n / 10), digit_char(n % 10)]
}

/// `n` written with four decimal digits, zero padded.
pub open spec fn four_digits(n: int) -> Seq<char> {
    seq![
        digit_char(n / 1000),
        digit_char((n / 100) % 10),
        digit_char((n / 10) % 10),
        digit_char(n % 10),
    ]
}

/// The text `YYYY-MM-DD HH:MM:SS` of a timestamp.
pub open spec fn stamp_text(t: TimestampView) -> Seq<char> {
    four_digits(t.year) + seq!['-'] + two_digits(t.month) + seq!['-'] + two_digits(t.day)
        + seq![' '] + two_digits(t.hour) + seq![':'] + two_digits(t.minute) + seq![':']
        + two_digits(t.second)
}

/// A calendar date and time of day, always valid.
#[derive(Clone, Copy, Debug)]
pub struct Timestamp {
    year: i32,
    month: u32,
    day: u32,
    hour: u32,
    minute: u32,
    second: u32,
}

impl View for Timestamp {
    type V = TimestampView;

    closed spec fn view(&self) -> TimestampView {
        moment(
            self.year as int,
            self.month as int,
            self.day as int,
            self.hour as int,
            self.minute as int,
            self.second as int,
        )
    }
}

/// Executable form of [`is_leap_year`].
fn leap_year(year: i32) -> (leap: bool)
    requires
        0 <= year,
    ensures
        leap == is_leap_year(year as int),
{
    year % 4 == 0 && (year % 100 != 0 || year % 400 == 0)
}

/// Executable form of [`days_in_month`].
fn month_length(year: i32, month: u32) -> (days: u32)
    requires
        0 <= year,
    ensures
        days == days_in_month(year as int, month as int),
{
    if month == 4 || month == 6 || month == 9 || month == 11 {
        30
    } else if month == 2 {
        if leap_year(year) {
            29
        } else {
            28
        }
    } else if 1 <= month && month <= 12 {
        31
    } else {
        0
    }
}

/// The fields that the text `s` spells out, read at the places where
/// `YYYY-MM-DD HH:MM:SS` has its digits.
pub open spec fn stamp_fields(s: Seq<char>) -> TimestampView {
    TimestampView {
        year: digit_value(s[0]) * 1000 + digit_value(s[1]) * 100 + digit_value(s[2]) * 10
            + digit_value(s[3]),
        month: digit_value(s[5]) * 10 + digit_value(s[6]),
        day: digit_value(s[8]) * 10 + digit_value(s[9]),
        hour: digit_value(s[11]) * 10 + digit_value(s[12]),
        minute: digit_value(s[14]) * 10 + digit_value(s[15]),
        second: digit_value(s[17]) * 10 + digit_value(s[18]),
    }
}

/// `s` has the shape `YYYY-MM-DD HH:MM:SS` and its digits name a valid
/// calendar moment.
pub open spec fn is_stamp(s: Seq<char>) -> bool {
    &&& s.len() == 19
    &&& s[4] == '-' && s[7] == '-'
    &&& s[10] == ' '
    &&& s[13] == ':' && s[16] == ':'
    &&& forall|i: int|
        0 <= i < 19 && i != 4 && i != 7 && i != 10 && i != 13 && i != 16 ==> is_digit(
            #[trigger] s[i],
        )
    &&& stamp_fields(s).valid()
}

/// A digit character is a digit and stands for the number it was made from.
proof fn digit_char_round_trip(d: int)
    requires
        0 <= d <= 9,
    ensures
        is_digit(digit_char(d)),
        digit_value(digit_char(d)) == d,
{
}

/// The two digits of a number below 100 spell that number.
proof fn two_digits_spell(n: int)
    requires
        0 <= n <= 99,
    ensures
        two_digits(n).len() == 2,
        is_digit(two_digits(n)[0]),
        is_digit(two_digits(n)[1]),
        digit_value(two_digits(n)[0]) * 10 + digit_value(two_digits(n)[1]) == n,
{
    digit_char_round_trip(n / 10);
    digit_char_round_trip(n % 10);
}

/// The four digits of a number below 10000 spell that number.
proof fn four_digits_spell(n: int)
    requires
        0 <= n <= 9999,
    ensures
        four_digits(n).len() == 4,
        is_digit(four_digits(n)[0]),
        is_digit(four_digits(n)[1]),
        is_digit(four_digits(n)[2]),
        is_digit(four_digits(n)[3]),
        digit_value(four_digits(n)[0]) * 1000 + digit_value(four_digits(n)[1]) * 100
            + digit_value(four_digits(n)[2]) * 10 + digit_value(four_digits(n)[3]) == n,
{
    digit_char_round_trip(n / 1000);
    digit_char_round_trip((n / 100) % 10);
    digit_char_round_trip((n / 10) % 10);
    digit_char_round_trip(n % 10);
}

/// Every valid timestamp renders to a text of the shape
/// `YYYY-MM-DD HH:MM:SS`, and the text spells out exactly its fields.
pub proof fn stamp_text_is_stamp(t: TimestampView)
    requires
        t.valid(),
    ensures
        is_stamp(stamp_text(t)),
        stamp_fields(stamp_text(t)) == t,
{
    let year = four_digits(t.year);
    let month = two_digits(t.month);
    let day = two_digits(t.day);
    let hour = two_digits(t.hour);
    let minute = two_digits(t.minute);
    let second = two_digits(t.second);
    four_digits_spell(t.year);
    two_digits_spell(t.month);
    two_digits_spell(t.day);
    two_digits_spell(t.hour);
    two_digits_spell(t.minute);
    two_digits_spell(t.second);
    let s = stamp_text(t);
    assert(s =~= seq![
        year[0],
        year[1],
        year[2],
        year[3],
        '-',
        month[0],
        month[1],
        '-',
        day[0],
        day[1],
        ' ',
        hour[0],
        hour[1],
        ':',
        minute[0],
        minute[1],
        ':',
        second[0],
        second[1],
    ]);
}

/// Reads the local wall clock with `chrono::Local::now` and takes the
/// moment apart with chrono's accessors `year`, `month`, `day`, `hour`,
/// `minute` and `second`. The contract claims the ranges that chrono
/// documents for the five smaller fields and nothing about the year.
/// chrono panics when the system clock stands before 1970.
#[verifier::external_body]
fn read_local_clock() -> (fields: (i32, u32, u32, u32, u32, u32))
    ensures
        1 <= fields.1 <= 12,
        1 <= fields.2 <= 31,
        fields.3 <= 23,
        fields.4 <= 59,
        fields.5 <= 59,
{
    let now = chrono::Local::now();
    (
        chrono::Datelike::year(&now),
        chrono::Datelike::month(&now),
        chrono::Datelike::day(&now),
        chrono::Timelike::hour(&now),
        chrono::Timelike::minute(&now),
        chrono::Timelike::second(&now),
    )
}

/// Formats a timestamp with chrono: `NaiveDate::from_ymd_opt`, then
/// `and_hms_opt`, then `format` with the pattern `%Y-%m-%d %H:%M:%S`.
/// For a valid moment of a year from 0 to 9999 both constructors succeed;
/// for such years chrono writes four zero-padded digits, and two
/// zero-padded digits for each of the other fields.
#[verifier::external_body]
fn format_stamp(t: &Timestamp) -> (text: String)
    requires
        t@.valid(),
    ensures
        text@ == stamp_text(t@),
{
    let date = chrono::NaiveDate::from_ymd_opt(t.year, t.month, t.day).unwrap();
    let moment = date.and_hms_opt(t.hour, t.minute, t.second).unwrap();
    moment.format("%Y-%m-%d %H:%M:%S").to_string()
}

impl Timestamp {
    #[verifier::type_invariant]
    spec fn well_formed(self) -> bool {
        self@.valid()
    }

    /// Builds a timestamp from its fields, or nothing when they name no
    /// moment of a four-digit year.
    pub fn new(year: i32, month: u32, day: u32, hour: u32, minute: u32, second: u32) -> (made:
        Option<Timestamp>)
        ensures
            made is Some <==> moment(
                year as int,
                month as int,
                day as int,
                hour as int,
                minute as int,
                second as int,
            ).valid(),
            made matches Some(t) ==> t@ == moment(
                year as int,
                month as int,
                day as int,
                hour as int,
                minute as int,
                second as int,
            ),
    {
        if year < 0 || year > 9999 {
            return None;
        }
        if month < 1 || month > 12 || day < 1 || day > month_length(year, month) {
            return None;
        }
        if hour > 23 || minute > 59 || second > 59 {
            return None;
        }
        Some(Timestamp { year, month, day, hour, minute, second })
    }

    /// The local time of the machine, or nothing when the clock names no
    /// moment of a four-digit year.
    pub fn now() -> (read: Option<Timestamp>)
        ensures
            read matches Some(t) ==> t@.valid(),
    {
        let fields = read_local_clock();
        let read = Timestamp::new(fields.0, fields.1, fields.2, fields.3, fields.4, fields.5);
        proof {
            if let Some(t) = read {
                use_type_invariant(&t);
            }
        }
        read
    }

    /// The timestamp as `YYYY-MM-DD HH:MM:SS`.
    pub fn text(&self) -> (text: String)
        ensures
            text@ == stamp_text(self@),
            is_stamp(text@),
            self@.valid(),
    {
        proof {
            use_type_invariant(self);
            stamp_text_is_stamp(self@);
        }
        format_stamp(self)
    }
}

} // verus!
