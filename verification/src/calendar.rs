//! Points in time as dates of the Gregorian calendar, in UTC.

use vstd::prelude::*;

use crate::text;

verus! {

pub open spec fn is_leap(year: int) -> bool {
    year % 4 == 0 && (year % 100 != 0 || year % 400 == 0)
}

pub open spec fn year_days(year: int) -> int {
    if is_leap(year) {
        366
    } else {
        365
    }
}

pub open spec fn month_days(year: int, month: int) -> int {
    if month == 2 {
        if is_leap(year) {
            29
        } else {
            28
        }
    } else if month == 4 || month == 6 || month == 9 || month == 11 {
        30
    } else {
        31
    }
}

/// The leap years from year 1 to `year`.
pub open spec fn leap_years_to(year: int) -> int {
    year / 4 - year / 100 + year / 400
}

/// The days from the start of 1970 to the start of `year`.
pub open spec fn days_before_year(year: int) -> int {
    365 * (year - 1970) + leap_years_to(year - 1) - leap_years_to(1969)
}

/// The days from the start of a year to the start of a month of it.
pub open spec fn days_before_month(year: int, month: int) -> int
    decreases month,
{
    if month <= 1 {
        0
    } else {
        days_before_month(year, month - 1) + month_days(year, month - 1)
    }
}

/// A day, by its year, month and day of the month.
pub struct Date {
    pub year: u64,
    pub month: u64,
    pub day: u64,
}

/// Whether `date` is the day that starts `days` days after the start of 1970.
pub open spec fn is_date(date: Date, days: nat) -> bool {
    &&& date.year >= 1970
    &&& 1 <= date.month <= 12
    &&& 1 <= date.day <= month_days(date.year as int, date.month as int)
    &&& days == days_before_year(date.year as int) + days_before_month(
        date.year as int,
        date.month as int,
    ) + date.day - 1
}

/// The day that starts `days` days after the start of 1970.
pub open spec fn date_of(days: nat) -> Date {
    choose|date: Date| is_date(date, days)
}

proof fn lemma_next_year(year: int)
    requires
        year >= 1970,
    ensures
        days_before_year(year + 1) == days_before_year(year) + year_days(year),
{
}

proof fn lemma_eras(eras: int)
    requires
        eras >= 0,
    ensures
        days_before_year(1970 + 400 * eras) == 146_097 * eras,
{
}

proof fn lemma_years_are_apart(first: int, second: int)
    requires
        1970 <= first < second,
    ensures
        days_before_year(first) + year_days(first) <= days_before_year(second),
    decreases second - first,
{
    lemma_next_year(first);
    if first + 1 < second {
        lemma_years_are_apart(first + 1, second);
    }
}

proof fn lemma_months_are_apart(year: int, first: int, second: int)
    requires
        1 <= first < second,
    ensures
        days_before_month(year, first) + month_days(year, first) <= days_before_month(year, second),
    decreases second,
{
    if first + 1 < second {
        lemma_months_are_apart(year, first, second - 1);
    }
}

proof fn lemma_months_make_a_year(year: int)
    ensures
        days_before_month(year, 13) == year_days(year),
{
    reveal_with_fuel(days_before_month, 14);
}

proof fn lemma_dates_lie_in_their_year(date: Date, days: nat)
    requires
        is_date(date, days),
    ensures
        days_before_year(date.year as int) <= days < days_before_year(date.year as int)
            + year_days(date.year as int),
{
    lemma_months_are_apart(date.year as int, date.month as int, 13);
    lemma_months_make_a_year(date.year as int);
    if date.month > 1 {
        lemma_months_are_apart(date.year as int, 1, date.month as int);
    }
}

/// A day has one date.
pub proof fn law_dates_are_unique(first: Date, second: Date, days: nat)
    requires
        is_date(first, days),
        is_date(second, days),
    ensures
        first == second,
{
    lemma_dates_lie_in_their_year(first, days);
    lemma_dates_lie_in_their_year(second, days);
    if first.year < second.year {
        lemma_years_are_apart(first.year as int, second.year as int);
    }
    if second.year < first.year {
        lemma_years_are_apart(second.year as int, first.year as int);
    }
    if first.month < second.month {
        lemma_months_are_apart(first.year as int, first.month as int, second.month as int);
    }
    if second.month < first.month {
        lemma_months_are_apart(first.year as int, second.month as int, first.month as int);
    }
}

fn leap(year: u64) -> (r: bool)
    ensures
        r == is_leap(year as int),
{
    year % 4 == 0 && (year % 100 != 0 || year % 400 == 0)
}

fn days_of_month(year: u64, month: u64) -> (r: u64)
    ensures
        r == month_days(year as int, month as int),
{
    if month == 2 {
        if leap(year) {
            29
        } else {
            28
        }
    } else if month == 4 || month == 6 || month == 9 || month == 11 {
        30
    } else {
        31
    }
}

/// The day that starts `days` days after the start of 1970.
pub fn civil_date(days: u64) -> (r: Date)
    ensures
        is_date(r, days as nat),
        r == date_of(days as nat),
{
    let eras: u64 = days / 146_097;
    let mut year: u64 = 1970 + 400 * eras;
    let mut rest: u64 = days % 146_097;
    proof {
        lemma_eras(eras as int);
        assert(days == 146_097 * eras + rest);
    }
    loop
        invariant_except_break
            1970 <= year,
            year + rest <= 100_000_000_000_000_000,
            days == days_before_year(year as int) + rest,
        ensures
            1970 <= year,
            days == days_before_year(year as int) + rest,
            rest < year_days(year as int),
        decreases rest,
    {
        let length: u64 = if leap(year) {
            366
        } else {
            365
        };
        if rest < length {
            break ;
        }
        proof {
            lemma_next_year(year as int);
        }
        rest = rest - length;
        year = year + 1;
    }
    let mut month: u64 = 1;
    let ghost day_of_year = rest as int;
    proof {
        lemma_months_make_a_year(year as int);
    }
    loop
        invariant_except_break
            1 <= month <= 12,
            day_of_year == days_before_month(year as int, month as int) + rest,
            day_of_year < days_before_month(year as int, 13),
        ensures
            1 <= month <= 12,
            day_of_year == days_before_month(year as int, month as int) + rest,
            rest < month_days(year as int, month as int),
        decreases rest,
    {
        let length: u64 = days_of_month(year, month);
        if rest < length {
            break ;
        }
        rest = rest - length;
        month = month + 1;
        assert(month <= 12) by {
            assert(day_of_year == days_before_month(year as int, month as int) + rest);
        }
    }
    let date = Date { year, month, day: rest + 1 };
    proof {
        assert(is_date(date, days as nat));
        law_dates_are_unique(date, date_of(days as nat), days as nat);
    }
    date
}

// ---------------------------------------------------------------------------
// Timestamps
// ---------------------------------------------------------------------------

/// A number with at least `width` digits.
pub open spec fn digits(n: nat, width: nat) -> Seq<char> {
    text::left_padded(text::decimal(n), '0', width)
}

fn write_digits(n: u64, width: usize) -> (r: String)
    ensures
        r@ == digits(n as nat, width as nat),
{
    text::pad_left(text::decimal_u64(n).as_str(), '0', width)
}

/// A date and a time of the day, as they are written.
pub open spec fn date_time_text(date: Date, millis: nat) -> Seq<char> {
    digits(date.year as nat, 4) + "-"@ + digits(date.month as nat, 2) + "-"@ + digits(
        date.day as nat,
        2,
    ) + "T"@ + digits(millis / 3_600_000, 2) + ":"@ + digits(millis / 60_000 % 60, 2) + ":"@
        + digits(millis / 1000 % 60, 2) + "."@ + digits(millis % 1000, 3) + "Z"@
}

/// A count of milliseconds since the start of 1970, as a point in time.
pub open spec fn timestamp_text(timestamp_ms: nat) -> Seq<char> {
    date_time_text(date_of(timestamp_ms / 86_400_000), timestamp_ms % 86_400_000)
}

/// A point in time, given in milliseconds since the start of 1970.
pub fn format_history_timestamp(timestamp_ms: u64) -> (r: String)
    ensures
        r@ == timestamp_text(timestamp_ms as nat),
{
    let date = civil_date(timestamp_ms / 86_400_000);
    let millis: u64 = timestamp_ms % 86_400_000;
    let mut out = write_digits(date.year, 4);
    out.append("-");
    out.append(write_digits(date.month, 2).as_str());
    out.append("-");
    out.append(write_digits(date.day, 2).as_str());
    out.append("T");
    out.append(write_digits(millis / 3_600_000, 2).as_str());
    out.append(":");
    out.append(write_digits(millis / 60_000 % 60, 2).as_str());
    out.append(":");
    out.append(write_digits(millis / 1000 % 60, 2).as_str());
    out.append(".");
    out.append(write_digits(millis % 1000, 3).as_str());
    out.append("Z");
    out
}

// ---------------------------------------------------------------------------
// Laws
// ---------------------------------------------------------------------------

/// The count of days starts with the first day of 1970.
pub proof fn law_days_start_in_1970(date: Date)
    requires
        is_date(date, 0),
    ensures
        date.year == 1970,
        date.month == 1,
        date.day == 1,
{
    law_dates_are_unique(date, Date { year: 1970, month: 1, day: 1 }, 0);
}

proof fn lemma_years_take_days(year: int)
    requires
        year >= 1970,
    ensures
        days_before_year(year) >= 365 * (year - 1970),
{
}

/// Each day follows the one before: it is the next of its month, or the first of
/// the next month, or the first of the next year. Months have 31 days but for the
/// fourth, sixth, ninth and eleventh, which have 30, and the second, which has 28
/// and in every fourth year 29, save full centuries that 400 does not divide.
pub proof fn law_days_follow_each_other(date: Date, next: Date, days: nat)
    requires
        days < u64::MAX,
        is_date(date, days),
        is_date(next, days + 1),
    ensures
        ({
            let leap = date.year % 400 == 0 || (date.year % 4 == 0 && date.year % 100 != 0);
            let length: int = if date.month == 2 && leap {
                29
            } else if date.month == 2 {
                28
            } else if date.month == 4 || date.month == 6 || date.month == 9 || date.month == 11 {
                30
            } else {
                31
            };
            if date.day < length {
                next.year == date.year && next.month == date.month && next.day == date.day + 1
            } else if date.month < 12 {
                next.year == date.year && next.month == date.month + 1 && next.day == 1
            } else {
                next.year == date.year + 1 && next.month == 1 && next.day == 1
            }
        }),
{
    let year = date.year as int;
    let month = date.month as int;
    lemma_dates_lie_in_their_year(date, days);
    lemma_years_take_days(year);
    if date.day < month_days(year, month) {
        law_dates_are_unique(next, Date { day: (date.day + 1) as u64, ..date }, days + 1);
    } else if date.month < 12 {
        assert(days_before_month(year, month + 1) == days_before_month(year, month) + month_days(
            year,
            month,
        ));
        let first = Date { year: date.year, month: (date.month + 1) as u64, day: 1 };
        law_dates_are_unique(next, first, days + 1);
    } else {
        lemma_months_make_a_year(year);
        lemma_next_year(year);
        assert(days_before_month(year, 13) == days_before_month(year, 12) + month_days(year, 12));
        let first = Date { year: (date.year + 1) as u64, month: 1, day: 1 };
        assert(days_before_month(year + 1, 1) == 0);
        law_dates_are_unique(next, first, days + 1);
    }
}

proof fn lemma_zeros_in_front(zeros: nat, s: Seq<char>)
    ensures
        text::digits_value(text::repeated('0', zeros) + s) == text::digits_value(s),
    decreases s.len(), zeros,
{
    let all = text::repeated('0', zeros) + s;
    if s.len() > 0 {
        assert(all.drop_last() =~= text::repeated('0', zeros) + s.drop_last());
        lemma_zeros_in_front(zeros, s.drop_last());
    } else if zeros > 0 {
        assert(all.drop_last() =~= text::repeated('0', (zeros - 1) as nat) + s);
        lemma_zeros_in_front((zeros - 1) as nat, s);
    } else {
        assert(all =~= s);
    }
}

/// A number that is written with zeros in front still stands for itself, and a
/// number that the width holds fills just that width.
pub proof fn law_written_digits_read_back(n: nat, width: nat)
    ensures
        digits(n, width).len() >= width,
        text::all_digits(digits(n, width)),
        text::digits_value(digits(n, width)) == n,
        n < 100 ==> digits(n, 2).len() == 2,
        n < 1000 ==> digits(n, 3).len() == 3,
        n < 10_000 ==> digits(n, 4).len() == 4,
{
    text::lemma_decimal_reads_back(n, n);
    let s = text::decimal(n);
    if s.len() < width {
        lemma_zeros_in_front((width - s.len()) as nat, s);
    }
    reveal_with_fuel(text::decimal, 5);
}

proof fn lemma_parts_of_a_time(hours: nat, minutes: nat, seconds: nat, millis: nat)
    requires
        minutes < 60,
        seconds < 60,
        millis < 1000,
    ensures
        ({
            let time = 3_600_000 * hours + 60_000 * minutes + 1000 * seconds + millis;
            &&& time / 3_600_000 == hours
            &&& time / 60_000 % 60 == minutes
            &&& time / 1000 % 60 == seconds
            &&& time % 1000 == millis
        }),
{
    let time = 3_600_000 * hours + 60_000 * minutes + 1000 * seconds + millis;
    assert(time / 60_000 == 60 * hours + minutes);
    assert(time / 1000 == 3600 * hours + 60 * minutes + seconds);
}

/// A time of the day is written by its hours, minutes, seconds and milliseconds,
/// behind the year, the month and the day.
pub proof fn law_times_are_written_by_their_parts(
    date: Date,
    hours: nat,
    minutes: nat,
    seconds: nat,
    millis: nat,
)
    requires
        hours < 24,
        minutes < 60,
        seconds < 60,
        millis < 1000,
    ensures
        date_time_text(
            date,
            3_600_000 * hours + 60_000 * minutes + 1000 * seconds + millis,
        ) == digits(date.year as nat, 4) + "-"@ + digits(date.month as nat, 2) + "-"@ + digits(
            date.day as nat,
            2,
        ) + "T"@ + digits(hours, 2) + ":"@ + digits(minutes, 2) + ":"@ + digits(seconds, 2) + "."@
            + digits(millis, 3) + "Z"@,
{
    lemma_parts_of_a_time(hours, minutes, seconds, millis);
}

proof fn lemma_parts_of_a_timestamp(days: nat, millis: nat)
    requires
        millis < 24 * 60 * 60 * 1000,
    ensures
        (24 * 60 * 60 * 1000 * days + millis) / 86_400_000 == days,
        (24 * 60 * 60 * 1000 * days + millis) % 86_400_000 == millis,
{
}

/// A point in time is a time of a day: a day has 24 hours.
pub proof fn law_days_have_their_hours(days: nat, millis: nat)
    requires
        millis < 24 * 60 * 60 * 1000,
    ensures
        timestamp_text(24 * 60 * 60 * 1000 * days + millis) == date_time_text(
            date_of(days),
            millis,
        ),
{
    lemma_parts_of_a_timestamp(days, millis);
}

} // verus!
