//! Date normalization: a user-supplied token is either the sentinel
//! `"today"` or a `YYYY-MM-DD` string naming a real Gregorian calendar date.

use chrono::Datelike;
use vstd::prelude::*;

verus! {

/// A calendar date with no time component.  Well-formed values (`wf`) have a
/// four-digit year, a month in `1..=12` and a day that exists in that month
/// of that year, leap years accounted for.
#[derive(Clone, Copy, Debug)]
pub struct ResolvedDate {
    pub year: u16,
    pub month: u8,
    pub day: u8,
}

/// Failure of date normalization: the token was neither the sentinel
/// `"today"` nor a valid `YYYY-MM-DD` calendar date.  The payload carries a
/// human-readable diagnostic.
#[derive(Debug)]
pub enum DateError {
    InvalidFormat(String),
}

pub open spec fn is_leap_year(y: int) -> bool {
    y % 4 == 0 && (y % 100 != 0 || y % 400 == 0)
}

pub open spec fn days_in_month(y: int, m: int) -> int {
    if m == 2 {
        if is_leap_year(y) {
            29
        } else {
            28
        }
    } else if m == 4 || m == 6 || m == 9 || m == 11 {
        30
    } else {
        31
    }
}

pub open spec fn valid_date(y: int, m: int, d: int) -> bool {
    &&& 0 <= y <= 9999
    &&& 1 <= m <= 12
    &&& 1 <= d <= days_in_month(y, m)
}

impl ResolvedDate {
    pub open spec fn wf(self) -> bool {
        valid_date(self.year as int, self.month as int, self.day as int)
    }

    /// Runtime check of `wf`, for callers outside verified code.
    pub fn is_wf(&self) -> (b: bool)
        ensures
            b == self.wf(),
    {
        self.year <= 9999 && 1 <= self.month && self.month <= 12 && 1 <= self.day && self.day
            <= month_length(self.year, self.month)
    }
}

pub open spec fn is_digit(c: char) -> bool {
    48 <= c as u32 <= 57
}

pub open spec fn digit_val(c: char) -> int {
    c as u32 - 48
}

/// Shape of a date token: exactly `YYYY-MM-DD` with decimal digits.
pub open spec fn iso_shape(s: Seq<char>) -> bool {
    &&& s.len() == 10
    &&& is_digit(s[0])
    &&& is_digit(s[1])
    &&& is_digit(s[2])
    &&& is_digit(s[3])
    &&& s[4] == '-'
    &&& is_digit(s[5])
    &&& is_digit(s[6])
    &&& s[7] == '-'
    &&& is_digit(s[8])
    &&& is_digit(s[9])
}

pub open spec fn iso_year(s: Seq<char>) -> int {
    digit_val(s[0]) * 1000 + digit_val(s[1]) * 100 + digit_val(s[2]) * 10 + digit_val(s[3])
}

pub open spec fn iso_month(s: Seq<char>) -> int {
    digit_val(s[5]) * 10 + digit_val(s[6])
}

pub open spec fn iso_day(s: Seq<char>) -> int {
    digit_val(s[8]) * 10 + digit_val(s[9])
}

/// A token is accepted by the parser exactly when it has the `YYYY-MM-DD`
/// shape and its three fields name a real calendar date.
pub open spec fn date_token_ok(s: Seq<char>) -> bool {
    iso_shape(s) && valid_date(iso_year(s), iso_month(s), iso_day(s))
}

fn is_digit_char(c: char) -> (b: bool)
    ensures
        b == is_digit(c),
{
    let v = c as u32;
    48 <= v && v <= 57
}

fn digit_of(c: char) -> (v: u16)
    requires
        is_digit(c),
    ensures
        v == digit_val(c),
        v <= 9,
{
    (c as u32 - 48) as u16
}

fn invalid(msg: &str) -> (e: DateError)
    ensures
        e is InvalidFormat,
{
    DateError::InvalidFormat(String::from_str(msg))
}

/// Number of days in the given month of the given year.
pub fn month_length(year: u16, month: u8) -> (n: u8)
    requires
        1 <= month <= 12,
    ensures
        n == days_in_month(year as int, month as int),
{
    if month == 2 {
        if year % 4 == 0 && (year % 100 != 0 || year % 400 == 0) {
            29
        } else {
            28
        }
    } else if month == 4 || month == 6 || month == 9 || month == 11 {
        30
    } else {
        31
    }
}

/// Parses a `YYYY-MM-DD` token into a calendar date.  Succeeds exactly on
/// tokens of the right shape whose fields name a real date, and then returns
/// the same (year, month, day) triple that the token spells.
pub fn parse_iso_date(token: &str) -> (r: Result<ResolvedDate, DateError>)
    ensures
        r is Ok <==> date_token_ok(token@),
        r matches Ok(d) ==> {
            &&& d.year == iso_year(token@)
            &&& d.month == iso_month(token@)
            &&& d.day == iso_day(token@)
            &&& d.wf()
        },
        r is Err ==> (r matches Err(e) && e is InvalidFormat),
{
    if token.unicode_len() != 10 {
        return Err(invalid("date must have the form YYYY-MM-DD"));
    }
    let c0 = token.get_char(0);
    let c1 = token.get_char(1);
    let c2 = token.get_char(2);
    let c3 = token.get_char(3);
    let c4 = token.get_char(4);
    let c5 = token.get_char(5);
    let c6 = token.get_char(6);
    let c7 = token.get_char(7);
    let c8 = token.get_char(8);
    let c9 = token.get_char(9);
    let shape_ok = is_digit_char(c0) && is_digit_char(c1) && is_digit_char(c2) && is_digit_char(c3)
        && c4 == '-' && is_digit_char(c5) && is_digit_char(c6) && c7 == '-' && is_digit_char(c8)
        && is_digit_char(c9);
    if !shape_ok {
        return Err(invalid("date must have the form YYYY-MM-DD"));
    }
    let year: u16 = digit_of(c0) * 1000 + digit_of(c1) * 100 + digit_of(c2) * 10 + digit_of(c3);
    let month_v: u16 = digit_of(c5) * 10 + digit_of(c6);
    let day_v: u16 = digit_of(c8) * 10 + digit_of(c9);
    if month_v < 1 || month_v > 12 {
        return Err(invalid("month out of range"));
    }
    let month: u8 = month_v as u8;
    let limit = month_length(year, month);
    if day_v < 1 || day_v > limit as u16 {
        return Err(invalid("day out of range for that month"));
    }
    let day: u8 = day_v as u8;
    Ok(ResolvedDate { year, month, day })
}

fn is_today_token(token: &str) -> (b: bool)
    ensures
        b == (token@ == "today"@),
{
    proof {
        reveal_strlit("today");
    }
    if token.unicode_len() != 5 {
        return false;
    }
    let b = token.get_char(0) == 't' && token.get_char(1) == 'o' && token.get_char(2) == 'd'
        && token.get_char(3) == 'a' && token.get_char(4) == 'y';
    if b {
        proof {
            assert(token@ =~= "today"@);
        }
    }
    b
}

/// Relies on chrono's `Local::now` and `NaiveDate` (`Datelike`): the current
/// local date is a valid Gregorian calendar date; its year reads as four
/// digits for any clock set between the years 0 and 9999.
#[verifier::external_body]
fn current_date() -> (d: ResolvedDate)
    ensures
        d.wf(),
{
    let now = chrono::Local::now().date_naive();
    ResolvedDate { year: now.year() as u16, month: now.month() as u8, day: now.day() as u8 }
}

/// Normalizes a date token against an explicitly supplied current date: the
/// sentinel `"today"` yields that date, anything else must spell a real
/// `YYYY-MM-DD` calendar date.
pub fn normalize_with(token: &str, today: ResolvedDate) -> (r: Result<ResolvedDate, DateError>)
    requires
        today.wf(),
    ensures
        token@ == "today"@ ==> r == Ok::<ResolvedDate, DateError>(today),
        token@ != "today"@ ==> {
            &&& (r is Ok <==> date_token_ok(token@))
            &&& (r matches Ok(d) ==> d.year == iso_year(token@) && d.month == iso_month(token@)
                && d.day == iso_day(token@))
            &&& (r is Err ==> (r matches Err(e) && e is InvalidFormat))
        },
        r matches Ok(d) ==> d.wf(),
{
    if is_today_token(token) {
        Ok(today)
    } else {
        parse_iso_date(token)
    }
}

/// Normalizes a date token.  The sentinel `"today"` yields the current local
/// calendar date and never fails; anything else must spell a real
/// `YYYY-MM-DD` calendar date, with the same (year, month, day) triple in
/// the result, or the token is rejected as `InvalidFormat`.
pub fn normalize(token: &str) -> (r: Result<ResolvedDate, DateError>)
    ensures
        token@ == "today"@ ==> r is Ok,
        token@ != "today"@ ==> {
            &&& (r is Ok <==> date_token_ok(token@))
            &&& (r matches Ok(d) ==> d.year == iso_year(token@) && d.month == iso_month(token@)
                && d.day == iso_day(token@))
            &&& (r is Err ==> (r matches Err(e) && e is InvalidFormat))
        },
        r matches Ok(d) ==> d.wf(),
{
    if is_today_token(token) {
        Ok(current_date())
    } else {
        parse_iso_date(token)
    }
}

fn digit_str(v: u8) -> (r: &'static str)
    requires
        v <= 9,
    ensures
        r@.len() == 1,
        is_digit(r@[0]),
        digit_val(r@[0]) == v,
{
    proof {
        reveal_strlit("0");
        reveal_strlit("1");
        reveal_strlit("2");
        reveal_strlit("3");
        reveal_strlit("4");
        reveal_strlit("5");
        reveal_strlit("6");
        reveal_strlit("7");
        reveal_strlit("8");
        reveal_strlit("9");
    }
    if v == 0 {
        "0"
    } else if v == 1 {
        "1"
    } else if v == 2 {
        "2"
    } else if v == 3 {
        "3"
    } else if v == 4 {
        "4"
    } else if v == 5 {
        "5"
    } else if v == 6 {
        "6"
    } else if v == 7 {
        "7"
    } else if v == 8 {
        "8"
    } else {
        "9"
    }
}

/// Renders a date as its `YYYY-MM-DD` text, zero-padded.  The result spells
/// exactly the date's (year, month, day) triple, so normalizing it again
/// yields the date back.
pub fn to_iso_string(date: &ResolvedDate) -> (r: String)
    requires
        date.wf(),
    ensures
        date_token_ok(r@),
        iso_year(r@) == date.year,
        iso_month(r@) == date.month,
        iso_day(r@) == date.day,
{
    let y = date.year;
    let y0: u16 = y / 1000;
    let y1: u16 = (y / 100) % 10;
    let y2: u16 = (y / 10) % 10;
    let y3: u16 = y % 10;
    assert(y0 * 1000 + y1 * 100 + y2 * 10 + y3 == y && y0 <= 9 && y1 <= 9 && y2 <= 9 && y3 <= 9)
        by (bit_vector)
        requires
            y <= 9999,
            y0 == y / 1000,
            y1 == (y / 100) % 10,
            y2 == (y / 10) % 10,
            y3 == y % 10,
    ;
    let m = date.month;
    let m0: u8 = m / 10;
    let m1: u8 = m % 10;
    assert(m0 * 10 + m1 == m && m0 <= 9 && m1 <= 9) by (bit_vector)
        requires
            m <= 12,
            m0 == m / 10,
            m1 == m % 10,
    ;
    let d = date.day;
    let d0: u8 = d / 10;
    let d1: u8 = d % 10;
    assert(d0 * 10 + d1 == d && d0 <= 9 && d1 <= 9) by (bit_vector)
        requires
            d <= 31,
            d0 == d / 10,
            d1 == d % 10,
    ;
    proof {
        reveal_strlit("-");
    }
    let mut s = String::new();
    s.append(digit_str(y0 as u8));
    s.append(digit_str(y1 as u8));
    s.append(digit_str(y2 as u8));
    s.append(digit_str(y3 as u8));
    s.append("-");
    s.append(digit_str(m0 as u8));
    s.append(digit_str(m1 as u8));
    s.append("-");
    s.append(digit_str(d0 as u8));
    s.append(digit_str(d1 as u8));
    assert(s@.len() == 10);
    s
}

impl DateError {
    /// Human-readable message, as the report prints it.
    pub fn message(&self) -> (r: String)
        ensures
            self matches DateError::InvalidFormat(d) ==> r@ == "Invalid date format: "@ + d@,
    {
        match self {
            DateError::InvalidFormat(d) => {
                let mut s = String::from_str("Invalid date format: ");
                s.append(d.as_str());
                s
            },
        }
    }
}

} // verus!
