use vstd::prelude::*;
use crate::reason::{Reason, Separator};

verus! {

/// Gregorian leap year: divisible by 4, and not by 100 unless by 400.
pub open spec fn is_leap(y: int) -> bool {
    y % 4 == 0 && (y % 100 != 0 || y % 400 == 0)
}

/// The number of days of month `m` of year `y`.
pub open spec fn days_in_month(y: int, m: int) -> int {
    if m == 2 {
        if is_leap(y) {
            29
        } else {
            28
        }
    } else if m == 4 || m == 6 || m == 9 || m == 11 {
        30
    } else {
        31
    }
}

/// `(y, m, d)` names a day of the Gregorian calendar.
pub open spec fn is_real_date(y: int, m: int, d: int) -> bool {
    1 <= m <= 12 && 1 <= d <= days_in_month(y, m)
}

/// The number of days of year `y` before month `m`.
pub open spec fn days_before_month(y: int, m: int) -> int
    decreases m,
{
    if m <= 1 {
        0
    } else {
        days_before_month(y, m - 1) + days_in_month(y, m - 1)
    }
}

/// The day of the year, counted from 1 on the first of January.
pub open spec fn ordinal_of(y: int, m: int, d: int) -> int {
    days_before_month(y, m) + d
}

/// Relies on chrono's `NaiveDate::from_ymd_opt`, which gives a date exactly
/// when `(year, month, day)` is a real proleptic Gregorian date within its
/// year range (which holds every year from 1 to 9999), and on
/// `Datelike::ordinal`, the day of the year of that date.
#[verifier::external_body]
fn ordinal_of_ymd(year: i32, month: u32, day: u32) -> (r: Option<u32>)
    requires
        1 <= year <= 9999,
    ensures
        r is Some <==> is_real_date(year as int, month as int, day as int),
        r is Some ==> r->0 as int == ordinal_of(year as int, month as int, day as int),
{
    match chrono::NaiveDate::from_ymd_opt(year, month, day) {
        Some(d) => Some(chrono::Datelike::ordinal(&d)),
        None => None,
    }
}

/// A calendar date.
#[derive(Debug, Clone, Copy, PartialEq, Eq, Structural)]
pub struct Date {
    pub year: i32,
    pub month: u32,
    pub day: u32,
}

impl Date {
    /// A real date with a year of four digits at most.
    pub open spec fn wf(self) -> bool {
        1 <= self.year <= 9999 && is_real_date(self.year as int, self.month as int, self.day as int)
    }

    pub open spec fn ordinal(self) -> int {
        ordinal_of(self.year as int, self.month as int, self.day as int)
    }

    /// The date `(year, month, day)`, if it is real and its year lies in 1..=9999.
    pub fn new(year: i32, month: u32, day: u32) -> (r: Option<Date>)
        ensures
            r is Some <==> (1 <= year <= 9999 && is_real_date(year as int, month as int, day as int)),
            r is Some ==> r->0 == (Date { year, month, day }),
    {
        if year < 1 || year > 9999 {
            return None;
        }
        match ordinal_of_ymd(year, month, day) {
            Some(_) => Some(Date { year, month, day }),
            None => None,
        }
    }

    /// The day of the year of this date.
    pub fn day_of_year(&self) -> (r: u32)
        requires
            self.wf(),
        ensures
            r as int == self.ordinal(),
    {
        match ordinal_of_ymd(self.year, self.month, self.day) {
            Some(o) => o,
            None => 0,
        }
    }
}

/// The year that a year fragment stands for, seen from `today_year`.
pub open spec fn full_year(fragment: int, four_digits: bool, today_year: int) -> Result<int, Reason> {
    if four_digits {
        if fragment > today_year {
            Err(Reason::YearInFuture)
        } else if fragment < 1900 {
            Err(Reason::YearTooOld)
        } else {
            Ok(fragment)
        }
    } else if fragment <= today_year % 100 {
        Ok(2000 + fragment)
    } else {
        Ok(1900 + fragment)
    }
}

/// Resolves the year of a birth date. A four-digit year must lie between 1900
/// and the reference year; a two-digit one falls in the current century when
/// it does not exceed the reference year's last two digits, else in the last.
pub fn calculate_full_year(year_fragment: u32, four_digits: bool, today: &Date) -> (r: Result<i32, Reason>)
    requires
        today.wf(),
        four_digits ==> year_fragment <= 9999,
        !four_digits ==> year_fragment <= 99,
    ensures
        match r {
            Ok(y) => full_year(year_fragment as int, four_digits, today.year as int) == Ok::<int, Reason>(y as int),
            Err(e) => full_year(year_fragment as int, four_digits, today.year as int) == Err::<int, Reason>(e),
        },
{
    let year = year_fragment as i32;
    if four_digits {
        if year > today.year {
            return Err(Reason::YearInFuture);
        }
        if year < 1900 {
            return Err(Reason::YearTooOld);
        }
        Ok(year)
    } else {
        let current = today.year % 100;
        Ok(if year <= current { 2000 + year } else { 1900 + year })
    }
}

/// The day that a written day stands for: coordination numbers add 60.
pub open spec fn adjusted_day(day: int) -> int {
    if day >= 61 {
        day - 60
    } else {
        day
    }
}

/// Builds the birth date from a year, a month and a written day, taking off
/// the coordination offset of 60 from days 61 and above.
pub fn validate_date(year: i32, month: u32, day: u32) -> (r: Result<Date, Reason>)
    requires
        1 <= year <= 9999,
    ensures
        match r {
            Ok(d) => is_real_date(year as int, month as int, adjusted_day(day as int))
                && d == (Date { year, month, day: adjusted_day(day as int) as u32 }),
            Err(e) => !is_real_date(year as int, month as int, adjusted_day(day as int))
                && e == Reason::InvalidDate,
        },
        r is Ok ==> r->Ok_0.wf(),
{
    let d = if day >= 61 { day - 60 } else { day };
    match ordinal_of_ymd(year, month, d) {
        Some(_) => Ok(Date { year, month, day: d }),
        None => Err(Reason::InvalidDate),
    }
}

/// Age in whole years: the difference of the years, less one when the day
/// of the year of `today` comes before that of `birth`.
pub open spec fn age(birth: Date, today: Date) -> int {
    today.year - birth.year - (if today.ordinal() < birth.ordinal() {
        1int
    } else {
        0int
    })
}

/// The separator rule: from one hundred years on `+` is required, below it
/// `-` or none.
pub open spec fn separator_rule(birth: Date, separator: Separator, today: Date) -> Result<(), Reason> {
    if age(birth, today) >= 100 {
        if separator == Separator::Plus {
            Ok(())
        } else {
            Err(Reason::WrongSeparator { required: Separator::Plus })
        }
    } else if separator == Separator::Plus {
        Err(Reason::WrongSeparator { required: Separator::Minus })
    } else {
        Ok(())
    }
}

/// Checks the separator against the holder's age on `today`.
pub fn validate_separator(birthdate: &Date, separator: Separator, today: &Date) -> (r: Result<(), Reason>)
    requires
        birthdate.wf(),
        today.wf(),
    ensures
        r == separator_rule(*birthdate, separator, *today),
{
    let before: i32 = if today.day_of_year() < birthdate.day_of_year() { 1 } else { 0 };
    let age = today.year - birthdate.year - before;
    if age >= 100 && separator != Separator::Plus {
        return Err(Reason::WrongSeparator { required: Separator::Plus });
    }
    if age < 100 && separator == Separator::Plus {
        return Err(Reason::WrongSeparator { required: Separator::Minus });
    }
    Ok(())
}

} // verus!
