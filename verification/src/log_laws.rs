//! What holds of the log and of the calendar that its times are written by.

use vstd::prelude::*;

use crate::calendar::{
    days_before_month, days_before_year, days_in_month, is_leap, is_time_of,
    law_days_follow_the_calendar, timestamp, Date,
};
use crate::logging::{level_asked, level_of, line_of, LogLevel};
use crate::number::{decimal, zero_padded};
use crate::text::{has_part, lowercase};
use crate::text_laws::{
    law_four_digits, law_parts_are_found_where_they_stand, law_two_digits,
};

verus! {

// ---------------------------------------------------------------------------
// Levels and lines
// ---------------------------------------------------------------------------

/// The word `trace`, anywhere in the value and in any case, asks for everything; `debug`,
/// `warn` and `error` ask for theirs where none before them in this order is there; and
/// without any of them, or without a value, information is kept.
pub proof fn law_levels_are_asked_for_by_words(value: Seq<char>)
    ensures
        ({
            let v = lowercase(value);
            let (t, d, w, e) = (
                has_part(v, "trace"@),
                has_part(v, "debug"@),
                has_part(v, "warn"@),
                has_part(v, "error"@),
            );
            &&& level_of(Some(value)) == LogLevel::Trace <==> t
            &&& level_of(Some(value)) == LogLevel::Debug <==> d && !t
            &&& level_of(Some(value)) == LogLevel::Warn <==> w && !t && !d
            &&& level_of(Some(value)) == LogLevel::Error <==> e && !t && !d && !w
            &&& level_of(Some(value)) == LogLevel::Info <==> !t && !d && !w && !e
            &&& level_of(None) == LogLevel::Info
        }),
{
}

/// Whatever stands around it, and however its letters are written, `trace` asks for
/// everything.
pub proof fn law_trace_is_found_in_any_case(a: Seq<char>, word: Seq<char>, b: Seq<char>)
    requires
        lowercase(word) == "trace"@,
    ensures
        level_asked(a + word + b) == LogLevel::Trace,
{
    law_parts_are_found_where_they_stand(lowercase(a), lowercase(word), lowercase(b), seq![]);
    assert(lowercase(a + word + b) =~= lowercase(a) + lowercase(word) + lowercase(b));
}

/// Levels are ordered from errors to traces, and their names are all as long.
pub proof fn law_levels_are_ordered()
    ensures
        LogLevel::Error.rank() < LogLevel::Warn.rank() < LogLevel::Info.rank()
            < LogLevel::Debug.rank() < LogLevel::Trace.rank(),
        LogLevel::Error.name() == "ERROR"@,
        LogLevel::Warn.name() == "WARN "@,
        LogLevel::Info.name() == "INFO "@,
        LogLevel::Debug.name() == "DEBUG"@,
        LogLevel::Trace.name() == "TRACE"@,
{
}

/// A line holds its time, its level, its origin and its message, each as it is, and ends
/// with a line feed.
pub proof fn law_a_line_holds_what_it_is_of(
    stamp: Seq<char>,
    level: LogLevel,
    target: Seq<char>,
    message: Seq<char>,
)
    ensures
        line_of(stamp, level, target, message) == seq!['['] + stamp + seq![' '] + level.name()
            + seq![' '] + target + seq![']', ' '] + message + seq!['\n'],
{
    reveal_strlit("[");
    reveal_strlit(" ");
    reveal_strlit("] ");
    reveal_strlit("\n");
    assert("["@ =~= seq!['[']);
    assert(" "@ =~= seq![' ']);
    assert("] "@ =~= seq![']', ' ']);
    assert("\n"@ =~= seq!['\n']);
}

// ---------------------------------------------------------------------------
// The calendar
// ---------------------------------------------------------------------------

/// Every fourth year is a leap year, but of the full centuries only every fourth.
pub proof fn law_leap_years(year: nat)
    ensures
        year % 400 == 0 ==> is_leap(year),
        year % 100 == 0 && year % 400 != 0 ==> !is_leap(year),
        year % 4 == 0 && year % 100 != 0 ==> is_leap(year),
        year % 4 != 0 ==> !is_leap(year),
{
}

/// How many days the months have.
pub proof fn law_months(year: nat)
    ensures
        days_in_month(year, 1) == 31 && days_in_month(year, 3) == 31 && days_in_month(year, 5)
            == 31 && days_in_month(year, 7) == 31,
        days_in_month(year, 8) == 31 && days_in_month(year, 10) == 31 && days_in_month(year, 12)
            == 31,
        days_in_month(year, 4) == 30 && days_in_month(year, 6) == 30 && days_in_month(year, 9)
            == 30 && days_in_month(year, 11) == 30,
        days_in_month(year, 2) == if is_leap(year) {
            29nat
        } else {
            28nat
        },
{
}

/// Days are counted one by one: from the first of January 1970 on, to the next day of the
/// month, from the last of a month to the first of the next, and from the last of December
/// to the first of January.
pub proof fn law_days_are_counted_one_by_one(date: Date)
    requires
        date.exists_in_calendar(),
        date.year < u64::MAX,
    ensures
        (Date { year: 1970, month: 1, day: 1 }).unix_day() == 0,
        date.day < days_in_month(date.year as nat, date.month as nat) ==> (Date {
            day: (date.day + 1) as u64,
            ..date
        }).unix_day() == date.unix_day() + 1,
        date.day == days_in_month(date.year as nat, date.month as nat) && date.month < 12 ==> (
        Date { year: date.year, month: (date.month + 1) as u64, day: 1 }).unix_day()
            == date.unix_day() + 1,
        date.month == 12 && date.day == 31 ==> (Date {
            year: (date.year + 1) as u64,
            month: 1,
            day: 1,
        }).unix_day() == date.unix_day() + 1,
{
    let y = date.year as nat;
    assert(days_before_year(1970) == 0);
    assert(days_before_month(1970, 1) == 0);
    if date.month == 12 && date.day == 31 {
        reveal_with_fuel(days_before_month, 13);
        assert(days_before_year(y + 1) == days_before_year(y) + if is_leap(y) {
            366nat
        } else {
            365nat
        });
    }
}

/// A date is one of the calendar from 1970 on exactly where its month and its day are.
pub proof fn law_dates_of_the_calendar(date: Date)
    ensures
        date.exists_in_calendar() <==> {
            &&& date.year >= 1970
            &&& 1 <= date.month && date.month <= 12
            &&& 1 <= date.day
            &&& date.month == 2 ==> date.day <= 28 || (date.day == 29 && is_leap(date.year as nat))
            &&& date.month == 4 || date.month == 6 || date.month == 9 || date.month == 11
                ==> date.day <= 30
            &&& date.day <= 31
        },
{
}

/// The seconds of a time are those of the full days before it and those of its own day, and
/// nothing else is its text.
pub proof fn law_times_are_counted_from_1970(date: Date, second: nat, text: Seq<char>)
    requires
        date.exists_in_calendar(),
        second < 86_400,
    ensures
        is_time_of(text, 86_400 * date.unix_day() + second) <==> text == timestamp(date, second),
{
    let secs = 86_400 * date.unix_day() + second;
    assert(secs / 86_400 == date.unix_day());
    assert(secs % 86_400 == second);
    if is_time_of(text, secs) {
        let other = choose|d: Date|
            {
                &&& #[trigger] d.exists_in_calendar()
                &&& d.unix_day() == secs / 86_400
                &&& text == timestamp(d, secs % 86_400)
            };
        law_days_follow_the_calendar(date, other);
    }
}

/// A time is written digit by digit: the year with four, or with as many as it has from the
/// year 10000 on, and all else with two.
pub proof fn law_times_are_written_digit_by_digit(date: Date, second: nat)
    requires
        date.exists_in_calendar(),
        second < 86_400,
    ensures
        ({
            let (y, m, d) = (date.year as nat, date.month as nat, date.day as nat);
            let (hh, mm, ss) = (second / 3_600, second % 3_600 / 60, second % 60);
            &&& hh * 3_600 + mm * 60 + ss == second
            &&& hh < 24 && mm < 60 && ss < 60
            &&& timestamp(date, second) == (if y < 10_000 {
                seq![
                    (48 + y / 1000) as char,
                    (48 + y / 100 % 10) as char,
                    (48 + y / 10 % 10) as char,
                    (48 + y % 10) as char,
                ]
            } else {
                decimal(y)
            }) + seq![
                '-',
                (48 + m / 10) as char,
                (48 + m % 10) as char,
                '-',
                (48 + d / 10) as char,
                (48 + d % 10) as char,
                'T',
                (48 + hh / 10) as char,
                (48 + hh % 10) as char,
                ':',
                (48 + mm / 10) as char,
                (48 + mm % 10) as char,
                ':',
                (48 + ss / 10) as char,
                (48 + ss % 10) as char,
                'Z',
            ]
        }),
{
    let (y, m, d) = (date.year as nat, date.month as nat, date.day as nat);
    let (hh, mm, ss) = (second / 3_600, second % 3_600 / 60, second % 60);
    lemma_written_year(y);
    lemma_written_day(date);
    lemma_written_clock(second);
    lemma_regrouped(
        zero_padded(y, 4),
        zero_padded(m, 2),
        zero_padded(d, 2),
        zero_padded(hh, 2),
        zero_padded(mm, 2),
        zero_padded(ss, 2),
    );
    lemma_day_and_clock(
        (48 + m / 10) as char,
        (48 + m % 10) as char,
        (48 + d / 10) as char,
        (48 + d % 10) as char,
        (48 + hh / 10) as char,
        (48 + hh % 10) as char,
        (48 + mm / 10) as char,
        (48 + mm % 10) as char,
        (48 + ss / 10) as char,
        (48 + ss % 10) as char,
    );
}

proof fn lemma_regrouped(
    y: Seq<char>,
    m: Seq<char>,
    d: Seq<char>,
    hh: Seq<char>,
    mm: Seq<char>,
    ss: Seq<char>,
)
    ensures
        y + "-"@ + m + "-"@ + d + "T"@ + hh + ":"@ + mm + ":"@ + ss + "Z"@ == y + (("-"@ + m + "-"@
            + d) + "T"@ + (hh + ":"@ + mm + ":"@ + ss + "Z"@)),
{
    let day = "-"@ + m + "-"@ + d;
    let clock = hh + ":"@ + mm + ":"@ + ss + "Z"@;
    assert(y + "-"@ + m + "-"@ + d =~= y + day);
    assert(y + day + "T"@ + hh + ":"@ + mm + ":"@ + ss + "Z"@ =~= y + day + "T"@ + clock);
    assert(y + day + "T"@ + clock =~= y + (day + "T"@ + clock));
}

proof fn lemma_day_and_clock(
    m1: char,
    m2: char,
    d1: char,
    d2: char,
    h1: char,
    h2: char,
    n1: char,
    n2: char,
    s1: char,
    s2: char,
)
    ensures
        seq!['-', m1, m2, '-', d1, d2] + "T"@ + seq![h1, h2, ':', n1, n2, ':', s1, s2, 'Z']
            == seq!['-', m1, m2, '-', d1, d2, 'T', h1, h2, ':', n1, n2, ':', s1, s2, 'Z'],
{
    reveal_strlit("T");
}

proof fn lemma_written_year(year: nat)
    ensures
        zero_padded(year, 4) == (if year < 10_000 {
            seq![
                (48 + year / 1000) as char,
                (48 + year / 100 % 10) as char,
                (48 + year / 10 % 10) as char,
                (48 + year % 10) as char,
            ]
        } else {
            decimal(year)
        }),
{
    if year < 10_000 {
        law_four_digits(year);
    } else {
        reveal_with_fuel(decimal, 5);
        assert(decimal(year / 10 / 10 / 10).len() >= 1);
    }
}

proof fn lemma_written_day(date: Date)
    requires
        date.exists_in_calendar(),
    ensures
        ({
            let (m, d) = (date.month as nat, date.day as nat);
            "-"@ + zero_padded(m, 2) + "-"@ + zero_padded(d, 2) == seq![
                '-',
                (48 + m / 10) as char,
                (48 + m % 10) as char,
                '-',
                (48 + d / 10) as char,
                (48 + d % 10) as char,
            ]
        }),
{
    reveal_strlit("-");
    law_two_digits(date.month as nat);
    law_two_digits(date.day as nat);
}

proof fn lemma_written_clock(second: nat)
    requires
        second < 86_400,
    ensures
        ({
            let (hh, mm, ss) = (second / 3_600, second % 3_600 / 60, second % 60);
            &&& hh * 3_600 + mm * 60 + ss == second
            &&& hh < 24 && mm < 60 && ss < 60
            &&& zero_padded(hh, 2) + ":"@ + zero_padded(mm, 2) + ":"@ + zero_padded(ss, 2) + "Z"@
                == seq![
                (48 + hh / 10) as char,
                (48 + hh % 10) as char,
                ':',
                (48 + mm / 10) as char,
                (48 + mm % 10) as char,
                ':',
                (48 + ss / 10) as char,
                (48 + ss % 10) as char,
                'Z',
            ]
        }),
{
    reveal_strlit(":");
    reveal_strlit("Z");
    law_two_digits(second / 3_600);
    law_two_digits(second % 3_600 / 60);
    law_two_digits(second % 60);
}

} // verus!
