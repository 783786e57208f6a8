//! Dates of the Gregorian calendar, and the days since the first of January 1970.

use vstd::prelude::*;

use crate::number::{push_zero_padded, zero_padded};

verus! {

/// Whether a year has 366 days.
pub open spec fn is_leap(year: nat) -> bool {
    year % 4 == 0 && (year % 100 != 0 || year % 400 == 0)
}

pub open spec fn days_in_year(year: nat) -> nat {
    if is_leap(year) {
        366
    } else {
        365
    }
}

pub open spec fn days_in_month(year: nat, month: nat) -> nat {
    if month == 2 {
        if is_leap(year) {
            29
        } else {
            28
        }
    } else if month == 4 || month == 6 || month == 9 || month == 11 {
        30
    } else {
        31
    }
}

/// The days from the first of January 1970 to the first of January of a year.
pub open spec fn days_before_year(year: nat) -> nat
    decreases year,
{
    if year <= 1970 {
        0
    } else {
        days_before_year((year - 1) as nat) + days_in_year((year - 1) as nat)
    }
}

/// The days of a year before a month.
pub open spec fn days_before_month(year: nat, month: nat) -> nat
    decreases month,
{
    if month <= 1 {
        0
    } else {
        days_before_month(year, (month - 1) as nat) + days_in_month(year, (month - 1) as nat)
    }
}

/// A date.
#[derive(Clone, Copy, Debug, PartialEq, Eq)]
pub struct Date {
    pub year: u64,
    pub month: u64,
    pub day: u64,
}

impl Date {
    /// Whether the calendar has this date, and it is not before 1970.
    pub open spec fn exists_in_calendar(self) -> bool {
        &&& self.year >= 1970
        &&& 1 <= self.month <= 12
        &&& 1 <= self.day <= days_in_month(self.year as nat, self.month as nat)
    }

    /// The days from the first of January 1970 to this date.
    pub open spec fn unix_day(self) -> nat {
        (days_before_year(self.year as nat) + days_before_month(
            self.year as nat,
            self.month as nat,
        ) + self.day - 1) as nat
    }
}

// ---------------------------------------------------------------------------
// Years that start in March
// ---------------------------------------------------------------------------

/// The days from the first of March of year 0 to the first of March of a year.
spec fn march_day(year: int) -> int {
    365 * year + year / 4 - year / 100 + year / 400
}

/// The days from the first of March of year 0 to the first of January 1970.
pub const EPOCH: u64 = 719_468;

proof fn lemma_days_before_year(year: nat)
    requires
        year >= 1970,
    ensures
        days_before_year(year) == march_day(year - 1) + 306 - EPOCH,
    decreases year,
{
    if year > 1970 {
        lemma_days_before_year((year - 1) as nat);
    }
}

/// The year, of those that start in March, that day `day` of an era of 400 years falls
/// in: a century has 36524 days, or one more where it is the last, and four years have
/// 1461.
proof fn lemma_year_of_era(day: int, year: int)
    requires
        0 <= day < 146_097,
        year == (day - day / 1_460 + day / 36_524 - day / 146_096) / 365,
    ensures
        0 <= year < 400,
        0 <= day - (365 * year + year / 4 - year / 100) <= 365,
        day - (365 * year + year / 4 - year / 100) == 365 ==> is_leap((year + 1) as nat),
{
    if day == 146_096 {
        assert(year == 399);
    } else {
        let century = day / 36_524;
        let rest = day - 36_524 * century;
        assert(0 <= century <= 3);
        assert(0 <= rest < 36_524);
        let fours = rest / 1_461;
        let last = rest - 1_461 * fours;
        assert(0 <= fours <= 24);
        assert(0 <= last <= 1_460);
        let late = (24 * century + fours + last) / 1_460;
        assert(0 <= late <= 1);
        assert(day / 1_460 == 25 * century + fours + late);
        let single = (last - late) / 365;
        assert(year == 100 * century + 4 * fours + single);
        assert(late == 1 ==> last >= 1_364);
        assert(0 <= single <= 3);
        assert(single == 3 || last < 365 * (single + 1));
        assert(year / 4 == 25 * century + fours);
        assert(year / 100 == century);
        assert(365 * year + year / 4 - year / 100 == 36_524 * century + 1_461 * fours + 365
            * single);
        assert(day - (365 * year + year / 4 - year / 100) == last - 365 * single);
        if last - 365 * single == 365 {
            assert(fours < 24);
            assert(year + 1 == 100 * century + 4 * (fours + 1));
            assert((year + 1) % 4 == 0);
            assert((year + 1) % 100 == 4 * (fours + 1));
        }
    }
}

/// The date of day `day` of a year that starts in March: the month is the one after
/// `from_march` months, and `date` its day.
proof fn lemma_date_of_march_year(year: int, day: int, from_march: int, date: Date)
    requires
        year >= 1969,
        0 <= day <= 365,
        day == 365 ==> is_leap((year + 1) as nat),
        march_day(year) + day >= EPOCH,
        from_march == (5 * day + 2) / 153,
        date.day == day - (153 * from_march + 2) / 5 + 1,
        date.month == (if from_march < 10 {
            from_march + 3
        } else {
            from_march - 9
        }),
        date.year == (if date.month <= 2 {
            year + 1
        } else {
            year
        }),
    ensures
        date.exists_in_calendar(),
        date.unix_day() == march_day(year) + day - EPOCH,
{
    let y = date.year as nat;
    reveal_with_fuel(days_before_month, 13);
    assert(0 <= from_march <= 11);
    if date.month <= 2 {
        lemma_days_before_year(y);
        assert(from_march >= 10);
    } else {
        assert(day < 306);
        assert(march_day(1969) + 306 == EPOCH);
        lemma_days_before_year(y);
        assert(march_day(year) == march_day(year - 1) + (if is_leap(y) {
            366int
        } else {
            365int
        }));
    }
}

/// The year, of those that start in March, that is year `yoe` of an era.
proof fn lemma_march_year(z: int, era: int, yoe: int, doy: int)
    requires
        z >= EPOCH,
        era >= 0,
        0 <= yoe < 400,
        0 <= doy <= 365,
        z - era * 146_097 == 365 * yoe + yoe / 4 - yoe / 100 + doy,
    ensures
        yoe + era * 400 >= 1969,
        march_day(yoe + era * 400) + doy == z,
        is_leap((yoe + 1) as nat) ==> is_leap((yoe + era * 400 + 1) as nat),
{
    let y = yoe + era * 400;
    assert(y / 4 == 100 * era + yoe / 4);
    assert(y / 100 == 4 * era + yoe / 100);
    assert(y / 400 == era);
    assert(march_day(y) + doy == z);
    assert(y >= 1969) by {
        assert(march_day(y) <= 365 * y + y / 4 + y / 400);
    }
    if is_leap((yoe + 1) as nat) {
        lemma_leap_in_era(era, yoe + 1);
    }
}

proof fn lemma_leap_in_era(era: int, year: int)
    requires
        era >= 0,
        1 <= year <= 400,
        is_leap(year as nat),
    ensures
        is_leap((year + era * 400) as nat),
{
    let y = year + era * 400;
    assert(y % 4 == year % 4);
    assert(y % 100 == year % 100);
    assert(y % 400 == year % 400);
}

/// The date of a day, counted from the first of January 1970.
pub fn civil_from_days(days: u64) -> (date: Date)
    requires
        days <= u64::MAX - EPOCH,
    ensures
        date.exists_in_calendar(),
        date.unix_day() == days,
{
    let z: u64 = days + EPOCH;
    let era: u64 = z / 146_097;
    let doe: u64 = z - era * 146_097;
    let yoe: u64 = (doe - doe / 1_460 + doe / 36_524 - doe / 146_096) / 365;
    proof {
        lemma_year_of_era(doe as int, yoe as int);
    }
    let y: u64 = yoe + era * 400;
    let doy: u64 = doe - (365 * yoe + yoe / 4 - yoe / 100);
    let mp: u64 = (5 * doy + 2) / 153;
    let day: u64 = doy - (153 * mp + 2) / 5 + 1;
    let month: u64 = if mp < 10 {
        mp + 3
    } else {
        mp - 9
    };
    let year: u64 = if month <= 2 {
        y + 1
    } else {
        y
    };
    let date = Date { year, month, day };
    proof {
        lemma_march_year(z as int, era as int, yoe as int, doy as int);
        lemma_date_of_march_year(y as int, doy as int, mp as int, date);
    }
    date
}

proof fn lemma_days_before_year_grows(a: nat, b: nat)
    requires
        1970 <= a <= b,
    ensures
        days_before_year(a) <= days_before_year(b),
        a < b ==> days_before_year(a) + days_in_year(a) <= days_before_year(b),
    decreases b,
{
    if a < b {
        lemma_days_before_year_grows(a, (b - 1) as nat);
    }
}

/// A date is before another where its year is, or its month in the same year, or its day
/// in the same month.
pub open spec fn is_before(a: Date, b: Date) -> bool {
    a.year < b.year || (a.year == b.year && (a.month < b.month || (a.month == b.month && a.day
        < b.day)))
}

/// Days are counted in the order of the dates, so each day has one date.
pub proof fn law_days_follow_the_calendar(a: Date, b: Date)
    requires
        a.exists_in_calendar(),
        b.exists_in_calendar(),
    ensures
        is_before(a, b) <==> a.unix_day() < b.unix_day(),
        a == b <==> a.unix_day() == b.unix_day(),
{
    if is_before(a, b) {
        lemma_order(a, b);
    }
    if is_before(b, a) {
        lemma_order(b, a);
    }
}

proof fn lemma_days_before_month_grows(year: nat, a: nat, b: nat)
    requires
        1 <= a < b,
    ensures
        days_before_month(year, a) + days_in_month(year, a) <= days_before_month(year, b),
    decreases b,
{
    if a < b - 1 {
        lemma_days_before_month_grows(year, a, (b - 1) as nat);
    }
}

proof fn lemma_months_fill_the_year(year: nat)
    ensures
        days_before_month(year, 13) == days_in_year(year),
{
    reveal_with_fuel(days_before_month, 13);
}

proof fn lemma_order(a: Date, b: Date)
    requires
        a.exists_in_calendar(),
        b.exists_in_calendar(),
        is_before(a, b),
    ensures
        a.unix_day() < b.unix_day(),
{
    if a.year < b.year {
        lemma_days_before_year_grows(a.year as nat, b.year as nat);
        lemma_days_before_month_grows(a.year as nat, a.month as nat, 13);
        lemma_months_fill_the_year(a.year as nat);
    } else if a.month < b.month {
        lemma_days_before_month_grows(a.year as nat, a.month as nat, b.month as nat);
    }
}

// ---------------------------------------------------------------------------
// Times
// ---------------------------------------------------------------------------

/// A date and the second of its day, as `YYYY-MM-DDTHH:MM:SSZ`.
pub open spec fn timestamp(date: Date, second: nat) -> Seq<char> {
    zero_padded(date.year as nat, 4) + "-"@ + zero_padded(date.month as nat, 2) + "-"@
        + zero_padded(date.day as nat, 2) + "T"@ + zero_padded(second / 3_600, 2) + ":"@
        + zero_padded(second % 3_600 / 60, 2) + ":"@ + zero_padded(second % 60, 2) + "Z"@
}

/// Whether a text is the time of so many seconds after the start of 1970.
pub open spec fn is_time_of(text: Seq<char>, secs: nat) -> bool {
    exists|date: Date|
        {
            &&& #[trigger] date.exists_in_calendar()
            &&& date.unix_day() == secs / 86_400
            &&& text == timestamp(date, secs % 86_400)
        }
}

/// The time of so many seconds after the start of 1970, in UTC.
pub fn format_unix_ts(secs: u64) -> (text: String)
    ensures
        is_time_of(text@, secs as nat),
        exists|date: Date|
            {
                &&& #[trigger] date.exists_in_calendar()
                &&& date.unix_day() == secs / 86_400
                &&& text@ == timestamp(date, (secs % 86_400) as nat)
            },
{
    let rem: u64 = secs % 86_400;
    let date = civil_from_days(secs / 86_400);
    let mut text = String::new();
    push_zero_padded(&mut text, date.year as u128, 4);
    text.append("-");
    push_zero_padded(&mut text, date.month as u128, 2);
    text.append("-");
    push_zero_padded(&mut text, date.day as u128, 2);
    text.append("T");
    push_zero_padded(&mut text, (rem / 3_600) as u128, 2);
    text.append(":");
    push_zero_padded(&mut text, (rem % 3_600 / 60) as u128, 2);
    text.append(":");
    push_zero_padded(&mut text, (rem % 60) as u128, 2);
    text.append("Z");
    assert(text@ == timestamp(date, rem as nat));
    assert(date.exists_in_calendar());
    text
}

} // verus!
