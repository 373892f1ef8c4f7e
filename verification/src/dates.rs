use vstd::prelude::*;

verus! {

/// Largest day-number magnitude a [`Date`] may carry.  chrono can represent
/// years from -262143 to 262142, and 366 days for each of those at most
/// 262145 years stays below 96 million, so every date chrono hands out fits
/// comfortably within this bound.
pub const MAX_DATE_DAYS: i64 = 100_000_000;

/// A calendar day, carried as a day number in the proleptic Gregorian
/// calendar: day 1 is January 1 of year 1, as chrono's `num_days_from_ce`
/// counts them.  The booking logic only ever compares and subtracts dates,
/// so it works on these plain numbers; the calendar arithmetic itself stays
/// with chrono.
#[derive(Clone, Copy, PartialEq, Eq, Structural, Debug)]
pub struct Date {
    pub days: i64,
}

impl Date {
    /// A date the rest of the library accepts: its day number is bounded, so
    /// date differences and price products stay far from any overflow.
    pub open spec fn wf(self) -> bool {
        -MAX_DATE_DAYS <= self.days <= MAX_DATE_DAYS
    }

    /// Builds the date for a given calendar day, or `None` when no such day
    /// exists (a bad month or day, February 29 outside a leap year, or a year
    /// beyond chrono's range).
    pub fn from_ymd(year: i32, month: u32, day: u32) -> (r: Option<Date>)
        ensures
            r is Some <==> valid_ymd(year as int, month as int, day as int),
            r matches Some(d) ==> d.wf() && d.days == day_number_of(
                year as int,
                month as int,
                day as int,
            ),
    {
        match ymd_to_day_number(year, month, day) {
            Some(n) => Some(Date { days: n }),
            None => None,
        }
    }
}

/// Number of whole days from `check_in` to `check_out`: the night count of a
/// stay over that range.
pub open spec fn spec_nights(check_in: Date, check_out: Date) -> int {
    check_out.days - check_in.days
}

/// Leap years of the proleptic Gregorian calendar.
pub open spec fn is_leap_year(y: int) -> bool {
    y % 4 == 0 && (y % 100 != 0 || y % 400 == 0)
}

/// How many days month `m` of year `y` has.
pub open spec fn days_in_month(y: int, m: int) -> int {
    if m == 2 {
        if is_leap_year(y) {
            29
        } else {
            28
        }
    } else if m == 4 || m == 6 || m == 9 || m == 11 {
        30
    } else {
        31
    }
}

/// The calendar days that exist and that chrono can represent: chrono's year
/// range is -262143 to 262142.
pub open spec fn valid_ymd(y: int, m: int, d: int) -> bool {
    &&& -262143 <= y <= 262142
    &&& 1 <= m <= 12
    &&& 1 <= d <= days_in_month(y, m)
}

/// The day number chrono assigns to the calendar day (y, m, d); a fixed
/// function of its arguments, left unspecified here.
pub uninterp spec fn day_number_of(y: int, m: int, d: int) -> int;

/// Relies on chrono's `NaiveDate::from_ymd_opt` and
/// `Datelike::num_days_from_ce`: the former returns `Some` exactly for real
/// proleptic-Gregorian calendar days within chrono's year range of -262143 to
/// 262142, and the latter is a pure function of the date, bounded in
/// magnitude by 366 days for each of the at most 262145 representable years.
#[verifier::external_body]
fn ymd_to_day_number(y: i32, m: u32, d: u32) -> (r: Option<i64>)
    ensures
        r is Some <==> valid_ymd(y as int, m as int, d as int),
        r matches Some(n) ==> n == day_number_of(y as int, m as int, d as int)
            && -MAX_DATE_DAYS <= n <= MAX_DATE_DAYS,
{
    chrono::NaiveDate::from_ymd_opt(y, m, d).map(|date| chrono::Datelike::num_days_from_ce(&date) as i64)
}

} // verus!
