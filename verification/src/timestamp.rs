//! A naive (timezone-free) timestamp as plain calendar fields, with its
//! verified ISO-8601 rendering for the wire payload.

use vstd::prelude::*;
use crate::text::push_char;

verus! {

/// A naive date-time with second resolution. The wire payload renders it as
/// `YYYY-MM-DDTHH:MM:SS`.
#[derive(Clone, Copy, Debug, PartialEq, Eq, Structural)]
pub struct Timestamp {
    pub year: u16,
    pub month: u8,
    pub day: u8,
    pub hour: u8,
    pub minute: u8,
    pub second: u8,
}

/// A year with 366 days under the Gregorian rule.
pub open spec fn spec_leap_year(year: u16) -> bool {
    (year % 4 == 0 && year % 100 != 0) || year % 400 == 0
}

/// How many days the month has, honouring leap years; meaningful for
/// months 1 to 12.
pub open spec fn spec_days_in_month(year: u16, month: u8) -> int {
    if month == 2 {
        if spec_leap_year(year) {
            29
        } else {
            28
        }
    } else if month == 4 || month == 6 || month == 9 || month == 11 {
        30
    } else {
        31
    }
}

/// How many days the month has, honouring leap years.
pub fn days_in_month(year: u16, month: u8) -> (d: u8)
    requires
        1 <= month <= 12,
    ensures
        d as int == spec_days_in_month(year, month),
{
    if month == 2 {
        if (year % 4 == 0 && year % 100 != 0) || year % 400 == 0 {
            29
        } else {
            28
        }
    } else if month == 4 || month == 6 || month == 9 || month == 11 {
        30
    } else {
        31
    }
}

impl Timestamp {
    /// A renderable date-time: every field in range and the day one the
    /// month actually has.
    pub open spec fn wf(&self) -> bool {
        &&& self.year <= 9999
        &&& 1 <= self.month <= 12
        &&& 1 <= self.day <= spec_days_in_month(self.year, self.month)
        &&& self.hour < 24
        &&& self.minute < 60
        &&& self.second < 60
    }

    /// Builds a timestamp when the fields make a calendar date-time, and
    /// nothing otherwise.
    pub fn new(year: u16, month: u8, day: u8, hour: u8, minute: u8, second: u8) -> (r: Option<
        Timestamp,
    >)
        ensures
            r matches Some(t) ==> t == (Timestamp { year, month, day, hour, minute, second })
                && t.wf(),
            r is Some <==> (Timestamp { year, month, day, hour, minute, second }).wf(),
    {
        if year <= 9999 && 1 <= month && month <= 12 && 1 <= day && day <= days_in_month(
            year,
            month,
        ) && hour < 24 && minute < 60 && second < 60 {
            Some(Timestamp { year, month, day, hour, minute, second })
        } else {
            None
        }
    }
}

/// The decimal digit character for `n < 10`.
pub open spec fn digit(n: nat) -> char {
    if n == 0 {
        '0'
    } else if n == 1 {
        '1'
    } else if n == 2 {
        '2'
    } else if n == 3 {
        '3'
    } else if n == 4 {
        '4'
    } else if n == 5 {
        '5'
    } else if n == 6 {
        '6'
    } else if n == 7 {
        '7'
    } else if n == 8 {
        '8'
    } else {
        '9'
    }
}

/// Two decimal digits, zero-padded, for `n < 100`.
pub open spec fn two_digits(n: nat) -> Seq<char> {
    seq![digit(n / 10 % 10), digit(n % 10)]
}

/// Four decimal digits, zero-padded, for `n < 10000`.
pub open spec fn four_digits(n: nat) -> Seq<char> {
    seq![digit(n / 1000 % 10), digit(n / 100 % 10), digit(n / 10 % 10), digit(n % 10)]
}

/// `YYYY-MM-DDTHH:MM:SS` over the timestamp's fields.
pub open spec fn iso_chars(t: Timestamp) -> Seq<char> {
    four_digits(t.year as nat) + seq!['-'] + two_digits(t.month as nat) + seq!['-'] + two_digits(
        t.day as nat,
    ) + seq!['T'] + two_digits(t.hour as nat) + seq![':'] + two_digits(t.minute as nat) + seq![':']
        + two_digits(t.second as nat)
}

/// The decimal digit character for `n < 10`.
pub fn digit_char(n: u16) -> (c: char)
    requires
        n < 10,
    ensures
        c == digit(n as nat),
{
    match n {
        0 => '0',
        1 => '1',
        2 => '2',
        3 => '3',
        4 => '4',
        5 => '5',
        6 => '6',
        7 => '7',
        8 => '8',
        _ => '9',
    }
}

/// Appends two zero-padded decimal digits.
fn append_two_digits(out: &mut String, n: u8)
    requires
        n < 100,
    ensures
        final(out)@ == old(out)@ + two_digits(n as nat),
{
    push_char(out, digit_char((n / 10) as u16));
    push_char(out, digit_char((n % 10) as u16));
    proof {
        assert(out@ =~= old(out)@ + two_digits(n as nat));
    }
}

/// Appends four zero-padded decimal digits.
fn append_four_digits(out: &mut String, n: u16)
    requires
        n < 10000,
    ensures
        final(out)@ == old(out)@ + four_digits(n as nat),
{
    push_char(out, digit_char(n / 1000));
    push_char(out, digit_char(n / 100 % 10));
    push_char(out, digit_char(n / 10 % 10));
    push_char(out, digit_char(n % 10));
    proof {
        assert(out@ =~= old(out)@ + four_digits(n as nat));
    }
}

/// Appends the `YYYY-MM-DDTHH:MM:SS` rendering of the timestamp.
pub fn append_iso(out: &mut String, t: &Timestamp)
    requires
        t.wf(),
    ensures
        final(out)@ == old(out)@ + iso_chars(*t),
{
    append_four_digits(out, t.year);
    push_char(out, '-');
    append_two_digits(out, t.month);
    push_char(out, '-');
    append_two_digits(out, t.day);
    push_char(out, 'T');
    append_two_digits(out, t.hour);
    push_char(out, ':');
    append_two_digits(out, t.minute);
    push_char(out, ':');
    append_two_digits(out, t.second);
    proof {
        assert(out@ =~= old(out)@ + iso_chars(*t));
    }
}

} // verus!
