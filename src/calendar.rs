use vstd::prelude::*;
use chrono::Datelike;

verus! {

pub open spec fn is_leap_year(y: int) -> bool {
    y % 4 == 0 && (y % 100 != 0 || y % 400 == 0)
}

pub open spec fn days_in_month(y: int, m: int) -> int {
    if m == 2 {
        if is_leap_year(y) { 29 } else { 28 }
    } else if m == 4 || m == 6 || m == 9 || m == 11 {
        30
    } else {
        31
    }
}

/// A day of the proleptic Gregorian calendar.
pub open spec fn valid_date(y: int, m: int, d: int) -> bool {
    1 <= m <= 12 && 1 <= d <= days_in_month(y, m)
}

pub open spec fn days_before_month(y: int, m: int) -> int
    decreases m,
{
    if m <= 1 {
        0
    } else {
        days_before_month(y, m - 1) + days_in_month(y, m - 1)
    }
}

/// Days counted from 1 January of year 1, which is day 1 (for years from 1 on).
pub open spec fn day_number(y: int, m: int, d: int) -> int {
    365 * (y - 1) + (y - 1) / 4 - (y - 1) / 100 + (y - 1) / 400 + days_before_month(y, m) + d
}

/// Relies on chrono::NaiveDate::from_ymd_opt, which refuses a day that does not
/// exist, and on Datelike::num_days_from_ce, which counts days from 1 January
/// of year 1 as day 1.
#[verifier::external_body]
fn days_from_ce(year: i32, month: u32, day: u32) -> (r: Option<i32>)
    requires
        1 <= year <= 9999,
    ensures
        r is Some <==> valid_date(year as int, month as int, day as int),
        r matches Some(n) ==> n == day_number(year as int, month as int, day as int),
{
    chrono::NaiveDate::from_ymd_opt(year, month, day).map(|d| d.num_days_from_ce())
}

/// A calendar day, with its day number.
#[derive(Clone, Copy, Debug, PartialEq, Eq, Structural)]
pub struct CivilDate {
    pub year: u32,
    pub month: u32,
    pub day: u32,
    /// Days from 1 January of year 1, which is day 1.
    pub ordinal: i32,
}

impl CivilDate {
    /// An existing day of the years 1 to 9999, with its day number.
    pub open spec fn wf(&self) -> bool {
        &&& 1 <= self.year <= 9999
        &&& valid_date(self.year as int, self.month as int, self.day as int)
        &&& self.ordinal == day_number(self.year as int, self.month as int, self.day as int)
    }

    /// The day `year`-`month`-`day`, or `None` where no such day exists.
    pub fn from_ymd(year: u32, month: u32, day: u32) -> (r: Option<CivilDate>)
        requires
            1 <= year <= 9999,
        ensures
            r is Some <==> valid_date(year as int, month as int, day as int),
            r matches Some(c) ==> c.wf() && c.year == year && c.month == month && c.day == day,
    {
        match days_from_ce(year as i32, month, day) {
            Some(ordinal) => Some(CivilDate { year, month, day, ordinal }),
            None => None,
        }
    }

    /// Whole days from `self` to `later`.
    pub fn days_until(&self, later: &CivilDate) -> (r: i64)
        requires
            self.wf(),
            later.wf(),
        ensures
            r == later.ordinal - self.ordinal,
    {
        later.ordinal as i64 - self.ordinal as i64
    }
}

pub open spec fn digit_char(d: int) -> char {
    if d == 0 { '0' } else if d == 1 { '1' } else if d == 2 { '2' } else if d == 3 { '3' }
    else if d == 4 { '4' } else if d == 5 { '5' } else if d == 6 { '6' } else if d == 7 { '7' }
    else if d == 8 { '8' } else { '9' }
}

pub open spec fn is_digit(c: char) -> bool {
    '0' <= c && c <= '9'
}

pub open spec fn digit_value(c: char) -> int {
    c as int - '0' as int
}

/// The `width` decimal digits of `n`, most significant first, with leading zeros.
pub open spec fn digits(n: int, width: nat) -> Seq<char>
    decreases width,
{
    if width == 0 {
        Seq::empty()
    } else {
        digits(n / 10, (width - 1) as nat).push(digit_char(n % 10))
    }
}

/// The stamp `YYYYMMDD` of a day.
pub open spec fn stamp_of(y: int, m: int, d: int) -> Seq<char> {
    digits(y, 4) + digits(m, 2) + digits(d, 2)
}

fn digit_str(d: u32) -> (r: &'static str)
    requires
        d < 10,
    ensures
        r@ == seq![digit_char(d as int)],
{
    proof {
        reveal_strlit("0");
        reveal_strlit("1");
        reveal_strlit("2");
        reveal_strlit("3");
        reveal_strlit("4");
        reveal_strlit("5");
        reveal_strlit("6");
        reveal_strlit("7");
        reveal_strlit("8");
        reveal_strlit("9");
    }
    match d {
        0 => "0",
        1 => "1",
        2 => "2",
        3 => "3",
        4 => "4",
        5 => "5",
        6 => "6",
        7 => "7",
        8 => "8",
        _ => "9",
    }
}

/// Appends the `width` last decimal digits of `n`.
fn push_digits(out: &mut String, n: u32, width: u32)
    requires
        width <= 9,
    ensures
        final(out)@ == old(out)@ + digits(n as int, width as nat),
    decreases width,
{
    if width > 0 {
        push_digits(out, n / 10, width - 1);
        out.append(digit_str(n % 10));
        assert(digits(n as int, width as nat) == digits((n / 10) as int, (width - 1) as nat).push(digit_char((n % 10) as int)));
        assert(out@ =~= old(out)@ + digits(n as int, width as nat));
    }
}

impl CivilDate {
    /// The stamp `YYYYMMDD` that names this day in artifact file names.
    pub fn stamp(&self) -> (r: String)
        ensures
            r@ == stamp_of(self.year as int, self.month as int, self.day as int),
    {
        let mut s = String::new();
        push_digits(&mut s, self.year, 4);
        push_digits(&mut s, self.month, 2);
        push_digits(&mut s, self.day, 2);
        assert(s@ =~= stamp_of(self.year as int, self.month as int, self.day as int));
        s
    }
}

} // verus!
