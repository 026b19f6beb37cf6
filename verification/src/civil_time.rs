//! Calendar dates and ISO 8601 timestamps of instants given in seconds since the
//! Unix epoch (1970-01-01T00:00:00Z), in the proleptic Gregorian calendar, UTC.

use vstd::prelude::*;

use crate::decimal::{decimal, to_decimal};

verus! {

/// Gregorian leap years: divisible by 4, except centuries not divisible by 400.
pub open spec fn is_leap(y: nat) -> bool {
    (y % 4 == 0 && y % 100 != 0) || y % 400 == 0
}

/// The number of days of a year.
pub open spec fn year_length(y: nat) -> nat {
    if is_leap(y) {
        366
    } else {
        365
    }
}

/// The number of days of month `m` (1 to 12) of year `y`.
pub open spec fn month_length(y: nat, m: nat) -> nat {
    if m == 2 {
        if is_leap(y) {
            29
        } else {
            28
        }
    } else if m == 4 || m == 6 || m == 9 || m == 11 {
        30
    } else {
        31
    }
}

/// The date `days` days after the first day of month `m` of year `y`, counting off
/// whole months: (year, month, day of month).
pub open spec fn date_in_year(y: nat, m: nat, days: nat) -> (nat, nat, nat)
    decreases 12 - m,
{
    if m >= 12 || days < month_length(y, m) {
        (y, m, days + 1)
    } else {
        date_in_year(y, m + 1, (days - month_length(y, m)) as nat)
    }
}

/// The date `days` days after 1 January of year `y`, counting off whole years, then
/// whole months.
pub open spec fn date_after(y: nat, days: nat) -> (nat, nat, nat)
    decreases days,
{
    if days < year_length(y) {
        date_in_year(y, 1, days)
    } else {
        date_after(y + 1, (days - year_length(y)) as nat)
    }
}

/// The date (year, month, day) of the day `days` days after 1 January 1970.
pub open spec fn civil_date(days: nat) -> (nat, nat, nat) {
    date_after(1970, days)
}

/// A number written with at least two digits.
pub open spec fn two_digits(n: nat) -> Seq<char> {
    if n < 10 {
        seq!['0'] + decimal(n)
    } else {
        decimal(n)
    }
}

/// The ISO 8601 timestamp `YYYY-MM-DDTHH:MM:SSZ` of an instant `secs` seconds after
/// the Unix epoch.
pub open spec fn iso_text(secs: nat) -> Seq<char> {
    let date = civil_date(secs / 86400);
    let r = secs % 86400;
    decimal(date.0) + "-"@ + two_digits(date.1) + "-"@ + two_digits(date.2) + "T"@ + two_digits(
        r / 3600,
    ) + ":"@ + two_digits((r % 3600) / 60) + ":"@ + two_digits(r % 60) + "Z"@
}

fn leap(y: u64) -> (b: bool)
    ensures
        b == is_leap(y as nat),
{
    (y % 4 == 0 && y % 100 != 0) || y % 400 == 0
}

fn year_len(y: u64) -> (n: u64)
    ensures
        n as nat == year_length(y as nat),
{
    if leap(y) {
        366
    } else {
        365
    }
}

fn month_len(y: u64, m: u64) -> (n: u64)
    ensures
        n as nat == month_length(y as nat, m as nat),
{
    if m == 2 {
        if leap(y) {
            29
        } else {
            28
        }
    } else if m == 4 || m == 6 || m == 9 || m == 11 {
        30
    } else {
        31
    }
}

/// The date of the day `days` days after 1 January 1970.
pub fn civil_from_days(days: u64) -> (r: (u64, u64, u64))
    ensures
        (r.0 as nat, r.1 as nat, r.2 as nat) == civil_date(days as nat),
{
    let mut y: u64 = 1970;
    let mut d: u64 = days;
    while d >= year_len(y)
        invariant
            1970 <= y,
            (y - 1970) * 365 + d <= days,
            date_after(y as nat, d as nat) == civil_date(days as nat),
        decreases d,
    {
        let yl = year_len(y);
        d = d - yl;
        y = y + 1;
    }
    let mut m: u64 = 1;
    while m < 12 && d >= month_len(y, m)
        invariant
            1 <= m <= 12,
            d < 366,
            date_in_year(y as nat, m as nat, d as nat) == civil_date(days as nat),
        decreases 12 - m,
    {
        let ml = month_len(y, m);
        d = d - ml;
        m = m + 1;
    }
    (y, m, d + 1)
}

fn two(n: u64) -> (s: String)
    ensures
        s@ == two_digits(n as nat),
{
    let digits = to_decimal(n);
    if n < 10 {
        let mut s = String::from_str("0");
        s.append(digits.as_str());
        proof {
            reveal_strlit("0");
        }
        s
    } else {
        digits
    }
}

/// The ISO 8601 timestamp of an instant given in seconds since the Unix epoch.
pub fn iso_timestamp(secs: u64) -> (s: String)
    ensures
        s@ == iso_text(secs as nat),
{
    let date = civil_from_days(secs / 86400);
    let r = secs % 86400;
    let mut s = to_decimal(date.0);
    s.append("-");
    s.append(two(date.1).as_str());
    s.append("-");
    s.append(two(date.2).as_str());
    s.append("T");
    s.append(two(r / 3600).as_str());
    s.append(":");
    s.append(two((r % 3600) / 60).as_str());
    s.append(":");
    s.append(two(r % 60).as_str());
    s.append("Z");
    s
}

} // verus!
