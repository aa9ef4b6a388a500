//! The `YYYY-MM-DD HH:MM:SS.mmm` timestamps of the log, computed from a Unix time.
use vstd::prelude::*;

verus! {

pub const SECS_PER_DAY: u64 = 86_400;

/// Whether `y` is a leap year of the Gregorian calendar.
pub open spec fn leap(y: int) -> bool {
    y % 4 == 0 && (y % 100 != 0 || y % 400 == 0)
}

/// The number of days of year `y`.
pub open spec fn days_in_year(y: int) -> int {
    if leap(y) { 366 } else { 365 }
}

/// The number of days of month `m` (0 for January) of a leap or common year.
pub open spec fn month_len(is_leap: bool, m: int) -> int {
    if m == 1 {
        if is_leap { 29 } else { 28 }
    } else if m == 3 || m == 5 || m == 8 || m == 10 {
        30
    } else {
        31
    }
}

/// The month and day (both from 1) of the day that is `d` days (from 0) after the start of
/// month `m` (from 0); past the last month, the last day of the year.
pub open spec fn month_day_from(is_leap: bool, m: int, d: int) -> (int, int)
    decreases 12 - m,
{
    if m >= 12 {
        (12, 31)
    } else if d < month_len(is_leap, m) {
        (m + 1, d + 1)
    } else {
        month_day_from(is_leap, m + 1, d - month_len(is_leap, m))
    }
}

/// The year in which second `secs` after the start of year `y` falls, and the second
/// within that year.
pub open spec fn split_years(secs: nat, y: nat) -> (nat, nat)
    decreases secs,
{
    if secs >= days_in_year(y as int) * 86400 {
        split_years((secs - days_in_year(y as int) * 86400) as nat, y + 1)
    } else {
        (y, secs)
    }
}

/// The decimal digits of `n`.
pub open spec fn decimal(n: nat) -> Seq<char>
    decreases n,
{
    if n < 10 {
        seq!["0123456789"@[n as int]]
    } else {
        decimal(n / 10) + seq!["0123456789"@[(n % 10) as int]]
    }
}

/// The decimal digits of `n`, with zeros in front up to `width` characters.
pub open spec fn padded(n: nat, width: nat) -> Seq<char> {
    let k = if decimal(n).len() < width { width - decimal(n).len() } else { 0 };
    Seq::new(k as nat, |i: int| '0') + decimal(n)
}

/// The local clock reading: the Unix time shifted by the time zone's offset, kept within
/// what a `u64` holds.
pub open spec fn local_secs(unix_secs: u64, offset_secs: i64) -> nat {
    let t = unix_secs + offset_secs;
    if t < 0 {
        0
    } else if t > u64::MAX {
        u64::MAX as nat
    } else {
        t as nat
    }
}

/// The text of a timestamp.
pub open spec fn timestamp_of(unix_secs: u64, millis: u32, offset_secs: i64) -> Seq<char> {
    let (year, in_year) = split_years(local_secs(unix_secs, offset_secs), 1970);
    let (month, day) = month_day_from(leap(year as int), 0, (in_year / 86400) as int);
    let in_day = in_year % 86400;
    padded(year, 4) + seq!['-'] + padded(month as nat, 2) + seq!['-'] + padded(day as nat, 2)
        + seq![' '] + padded(in_day / 3600, 2) + seq![':'] + padded((in_day % 3600) / 60, 2)
        + seq![':'] + padded(in_day % 60, 2) + seq!['.'] + padded(millis as nat, 3)
}

/// Whether `year` is a leap year.
pub fn is_leap_year(year: u64) -> (r: bool)
    ensures
        r == leap(year as int),
{
    year % 4 == 0 && (year % 100 != 0 || year % 400 == 0)
}

fn days_in_month(is_leap: bool, m: u64) -> (r: u64)
    ensures
        r == month_len(is_leap, m as int),
{
    if m == 1 {
        if is_leap { 29 } else { 28 }
    } else if m == 3 || m == 5 || m == 8 || m == 10 {
        30
    } else {
        31
    }
}

/// The month and day (both from 1) of day `day_of_year` (from 0) of `year`.
pub fn get_month_day_from_year_day(year: u64, day_of_year: u64) -> (r: (u8, u8))
    ensures
        (r.0 as int, r.1 as int) == month_day_from(leap(year as int), 0, day_of_year as int),
{
    let is_leap = is_leap_year(year);
    let mut m: u64 = 0;
    let mut rest = day_of_year;
    while m < 12
        invariant
            m <= 12,
            is_leap == leap(year as int),
            month_day_from(is_leap, m as int, rest as int) == month_day_from(
                is_leap,
                0,
                day_of_year as int,
            ),
        decreases 12 - m,
    {
        let len = days_in_month(is_leap, m);
        if rest < len {
            return ((m + 1) as u8, (rest + 1) as u8);
        }
        rest -= len;
        m += 1;
    }
    (12, 31)
}

/// Appends the decimal digits of `n` to `out`.
fn push_decimal(out: &mut String, n: u64)
    ensures
        final(out)@ == old(out)@ + decimal(n as nat),
    decreases n,
{
    let digits = "0123456789";
    proof {
        reveal_strlit("0123456789");
    }
    if n >= 10 {
        push_decimal(out, n / 10);
    }
    let d = (n % 10) as usize;
    out.append(digits.substring_char(d, d + 1));
    assert(digits@.subrange(d as int, d + 1) =~= seq![digits@[d as int]]);
}

/// Appends the decimal digits of `n` to `out`, with zeros in front up to `width` characters.
fn push_padded(out: &mut String, n: u64, width: usize)
    ensures
        final(out)@ == old(out)@ + padded(n as nat, width as nat),
{
    proof {
        reveal_strlit("0");
    }
    let mut digits = String::new();
    push_decimal(&mut digits, n);
    let len = digits.as_str().unicode_len();
    let zeros = if len < width { width - len } else { 0 };
    let ghost start = out@;
    let mut i: usize = 0;
    while i < zeros
        invariant
            i <= zeros,
            "0"@ == seq!['0'],
            out@ == start + Seq::new(i as nat, |j: int| '0'),
        decreases zeros - i,
    {
        out.append("0");
        assert(start + Seq::new(i as nat, |j: int| '0') + seq!['0'] =~= start + Seq::new(
            (i + 1) as nat,
            |j: int| '0',
        ));
        i += 1;
    }
    out.append(digits.as_str());
    assert(start + Seq::new(zeros as nat, |j: int| '0') + decimal(n as nat) =~= start + padded(
        n as nat,
        width as nat,
    ));
}

/// The timestamp `YYYY-MM-DD HH:MM:SS.mmm` of the Unix time `unix_secs` seconds and
/// `millis` milliseconds, in the time zone that is `offset_secs` seconds ahead of UTC.
pub fn get_timestamp(unix_secs: u64, millis: u32, offset_secs: i64) -> (r: String)
    ensures
        r@ == timestamp_of(unix_secs, millis, offset_secs),
{
    let local = if offset_secs >= 0 {
        unix_secs.saturating_add(offset_secs as u64)
    } else {
        let back: u64 = if offset_secs == i64::MIN {
            0x8000_0000_0000_0000
        } else {
            (-offset_secs) as u64
        };
        unix_secs.saturating_sub(back)
    };
    assert(local as nat == local_secs(unix_secs, offset_secs));
    let mut rest = local;
    let mut year: u64 = 1970;
    loop
        invariant
            1970 <= year,
            (year - 1970) * 31_536_000 <= local - rest,
            rest <= local,
            split_years(rest as nat, year as nat) == split_years(local as nat, 1970),
        ensures
            split_years(local as nat, 1970) == (year as nat, rest as nat),
        decreases rest,
    {
        let in_year: u64 = if is_leap_year(year) { 366 * SECS_PER_DAY } else { 365 * SECS_PER_DAY };
        if rest >= in_year {
            rest -= in_year;
            year += 1;
        } else {
            assert(split_years(rest as nat, year as nat) == (year as nat, rest as nat));
            break;
        }
    }
    let (month, day) = get_month_day_from_year_day(year, rest / SECS_PER_DAY);
    let in_day = rest % SECS_PER_DAY;
    proof {
        reveal_strlit("-");
        reveal_strlit(" ");
        reveal_strlit(":");
        reveal_strlit(".");
    }
    let mut out = String::new();
    push_padded(&mut out, year, 4);
    out.append("-");
    push_padded(&mut out, month as u64, 2);
    out.append("-");
    push_padded(&mut out, day as u64, 2);
    out.append(" ");
    push_padded(&mut out, in_day / 3600, 2);
    out.append(":");
    push_padded(&mut out, (in_day % 3600) / 60, 2);
    out.append(":");
    push_padded(&mut out, in_day % 60, 2);
    out.append(".");
    push_padded(&mut out, millis as u64, 3);
    proof {
        assert(out@ =~= timestamp_of(unix_secs, millis, offset_secs));
    }
    out
}

} // verus!
