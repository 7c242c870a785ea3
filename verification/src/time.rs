//! Calendar arithmetic on plain values: date validity, days since the Unix
//! epoch, conversion of timestamps between epoch seconds and civil time, the
//! fixed-offset shift used for the upstream site's CET/CEST timestamps, and
//! text formatting of dates and timestamps.

use vstd::prelude::*;

verus! {

/// Epoch seconds at 10000-01-01T00:00:00Z: the first instant that the
/// four-digit-year text forms below cannot carry.
pub const EPOCH_YEAR_10000: u64 = 253402300800;

/// A calendar date with no time-of-day attached.
#[derive(Clone, Copy, Debug, PartialEq, Eq, Structural)]
pub struct CalendarDate {
    pub year: u32,
    pub month: u32,
    pub day: u32,
}

/// An instant in UTC, second precision.
#[derive(Clone, Copy, Debug, PartialEq, Eq, Structural)]
pub struct UtcDateTime {
    pub year: u32,
    pub month: u32,
    pub day: u32,
    pub hour: u32,
    pub minute: u32,
    pub second: u32,
}

pub open spec fn spec_is_leap(y: int) -> bool {
    y % 4 == 0 && (y % 100 != 0 || y % 400 == 0)
}

pub fn is_leap(y: u32) -> (r: bool)
    ensures
        r == spec_is_leap(y as int),
{
    y % 4 == 0 && (y % 100 != 0 || y % 400 == 0)
}

pub open spec fn spec_days_in_month(y: int, m: int) -> int {
    if m == 2 {
        if spec_is_leap(y) {
            29
        } else {
            28
        }
    } else if m == 4 || m == 6 || m == 9 || m == 11 {
        30
    } else {
        31
    }
}

pub fn days_in_month(y: u32, m: u32) -> (r: u32)
    ensures
        r == spec_days_in_month(y as int, m as int),
{
    if m == 2 {
        if is_leap(y) {
            29
        } else {
            28
        }
    } else if m == 4 || m == 6 || m == 9 || m == 11 {
        30
    } else {
        31
    }
}

pub open spec fn spec_days_in_year(y: int) -> int {
    if spec_is_leap(y) {
        366
    } else {
        365
    }
}

pub fn days_in_year(y: u32) -> (r: u32)
    ensures
        r == spec_days_in_year(y as int),
{
    if is_leap(y) {
        366
    } else {
        365
    }
}

pub open spec fn spec_valid_date(y: int, m: int, d: int) -> bool {
    &&& 0 <= y
    &&& 1 <= m <= 12
    &&& 1 <= d <= spec_days_in_month(y, m)
}

impl CalendarDate {
    pub open spec fn wf(self) -> bool {
        spec_valid_date(self.year as int, self.month as int, self.day as int)
    }
}

impl UtcDateTime {
    pub open spec fn wf(self) -> bool {
        &&& spec_valid_date(self.year as int, self.month as int, self.day as int)
        &&& self.hour < 24
        &&& self.minute < 60
        &&& self.second < 60
    }

    pub open spec fn date(self) -> CalendarDate {
        CalendarDate { year: self.year, month: self.month, day: self.day }
    }
}

/// Days from 1970-01-01 to the first day of year `y`.
pub open spec fn spec_year_start_days(y: int) -> int
    decreases y - 1970 when y >= 1970
{
    if y <= 1970 {
        0
    } else {
        spec_year_start_days(y - 1) + spec_days_in_year(y - 1)
    }
}

/// Days from the first of year `y` to the first of its month `m`.
pub open spec fn spec_month_start_days(y: int, m: int) -> int
    decreases m when m >= 1
{
    if m <= 1 {
        0
    } else {
        spec_month_start_days(y, m - 1) + spec_days_in_month(y, m - 1)
    }
}

/// Days from 1970-01-01 to the civil date (y, m, d).
pub open spec fn spec_days_from_civil(y: int, m: int, d: int) -> int {
    spec_year_start_days(y) + spec_month_start_days(y, m) + (d - 1)
}

/// Seconds from the Unix epoch to this instant.
pub open spec fn spec_epoch_seconds(dt: UtcDateTime) -> int {
    spec_days_from_civil(dt.year as int, dt.month as int, dt.day as int) * 86400 + dt.hour * 3600
        + dt.minute * 60 + dt.second
}

pub proof fn lemma_year_start_days_ge(y: int)
    requires
        y >= 1970,
    ensures
        spec_year_start_days(y) >= 365 * (y - 1970),
    decreases y - 1970,
{
    if y > 1970 {
        lemma_year_start_days_ge(y - 1);
    }
}

pub proof fn lemma_month_start_13(y: int)
    ensures
        spec_month_start_days(y, 13) == spec_days_in_year(y),
{
    reveal_with_fuel(spec_month_start_days, 13);
}

/// The civil date `days` full days after 1970-01-01.
pub fn civil_from_days(days: u64) -> (r: (u32, u32, u32))
    requires
        days <= 3_000_000,
    ensures
        spec_valid_date(r.0 as int, r.1 as int, r.2 as int),
        r.0 >= 1970,
        spec_days_from_civil(r.0 as int, r.1 as int, r.2 as int) == days,
{
    let mut y: u32 = 1970;
    let mut rem: u64 = days;
    while rem >= days_in_year(y) as u64
        invariant
            1970 <= y,
            y <= 1970 + days,
            days <= 3_000_000,
            spec_year_start_days(y as int) + rem == days,
        decreases rem,
    {
        proof {
            lemma_year_start_days_ge(y as int + 1);
        }
        rem = rem - days_in_year(y) as u64;
        y = y + 1;
    }
    let mut m: u32 = 1;
    let ghost rem_year: int = rem as int;
    while m < 12 && rem >= days_in_month(y, m) as u64
        invariant
            1 <= m <= 12,
            spec_month_start_days(y as int, m as int) + rem == rem_year,
            rem_year < spec_days_in_year(y as int),
        decreases 12 - m,
    {
        rem = rem - days_in_month(y, m) as u64;
        m = m + 1;
    }
    proof {
        lemma_month_start_13(y as int);
        assert(rem < spec_days_in_month(y as int, m as int));
    }
    let d: u32 = (rem as u32) + 1;
    (y, m, d)
}

/// The UTC instant `epoch` seconds after the Unix epoch.
pub fn epoch_to_utc(epoch: u64) -> (r: UtcDateTime)
    requires
        epoch < EPOCH_YEAR_10000,
    ensures
        r.wf(),
        r.year >= 1970,
        spec_epoch_seconds(r) == epoch,
{
    let days: u64 = epoch / 86400;
    let tod: u64 = epoch % 86400;
    let (y, m, d) = civil_from_days(days);
    let hour: u32 = (tod / 3600) as u32;
    let minute: u32 = ((tod % 3600) / 60) as u32;
    let second: u32 = (tod % 60) as u32;
    let r = UtcDateTime { year: y, month: m, day: d, hour, minute, second };
    assert(spec_epoch_seconds(r) == epoch) by {
        assert(days * 86400 + tod == epoch);
        assert(tod == hour * 3600 + minute * 60 + second);
    };
    r
}

/// The same instant `off` hours earlier: how a local CET/CEST reading is
/// turned into UTC. Borrows across day, month and year boundaries.
pub open spec fn spec_shift_back_hours(dt: UtcDateTime, off: int) -> UtcDateTime {
    if dt.hour >= off {
        UtcDateTime { hour: (dt.hour - off) as u32, ..dt }
    } else if dt.day > 1 {
        UtcDateTime { day: (dt.day - 1) as u32, hour: (dt.hour + 24 - off) as u32, ..dt }
    } else if dt.month > 1 {
        UtcDateTime {
            month: (dt.month - 1) as u32,
            day: spec_days_in_month(dt.year as int, dt.month - 1) as u32,
            hour: (dt.hour + 24 - off) as u32,
            ..dt
        }
    } else {
        UtcDateTime {
            year: (dt.year - 1) as u32,
            month: 12,
            day: 31,
            hour: (dt.hour + 24 - off) as u32,
            ..dt
        }
    }
}

pub fn shift_back_hours(dt: UtcDateTime, off: u32) -> (r: UtcDateTime)
    requires
        dt.wf(),
        1 <= off <= 2,
        dt.year >= 1,
    ensures
        r == spec_shift_back_hours(dt, off as int),
        r.wf(),
        r.year <= dt.year,
{
    if dt.hour >= off {
        UtcDateTime { hour: dt.hour - off, ..dt }
    } else if dt.day > 1 {
        UtcDateTime { day: dt.day - 1, hour: dt.hour + 24 - off, ..dt }
    } else if dt.month > 1 {
        UtcDateTime {
            month: dt.month - 1,
            day: days_in_month(dt.year, dt.month - 1),
            hour: dt.hour + 24 - off,
            ..dt
        }
    } else {
        UtcDateTime { year: dt.year - 1, month: 12, day: 31, hour: dt.hour + 24 - off, ..dt }
    }
}

/// The char that writes the decimal digit `d`.
pub open spec fn spec_digit_char(d: int) -> char {
    if d == 0 {
        '0'
    } else if d == 1 {
        '1'
    } else if d == 2 {
        '2'
    } else if d == 3 {
        '3'
    } else if d == 4 {
        '4'
    } else if d == 5 {
        '5'
    } else if d == 6 {
        '6'
    } else if d == 7 {
        '7'
    } else if d == 8 {
        '8'
    } else {
        '9'
    }
}

pub fn digit_char(d: u32) -> (r: char)
    requires
        d <= 9,
    ensures
        r == spec_digit_char(d as int),
{
    if d == 0 {
        '0'
    } else if d == 1 {
        '1'
    } else if d == 2 {
        '2'
    } else if d == 3 {
        '3'
    } else if d == 4 {
        '4'
    } else if d == 5 {
        '5'
    } else if d == 6 {
        '6'
    } else if d == 7 {
        '7'
    } else if d == 8 {
        '8'
    } else {
        '9'
    }
}

/// A number written with exactly two digits, zero padded.
pub open spec fn spec_two_digits(n: int) -> Seq<char> {
    seq![spec_digit_char(n / 10), spec_digit_char(n % 10)]
}

/// A number written with exactly four digits, zero padded.
pub open spec fn spec_four_digits(n: int) -> Seq<char> {
    seq![
        spec_digit_char(n / 1000),
        spec_digit_char((n / 100) % 10),
        spec_digit_char((n / 10) % 10),
        spec_digit_char(n % 10),
    ]
}

fn push_two_digits(out: &mut Vec<char>, n: u32)
    requires
        n <= 99,
    ensures
        final(out)@ == old(out)@ + spec_two_digits(n as int),
{
    out.push(digit_char(n / 10));
    out.push(digit_char(n % 10));
    assert(out@ =~= old(out)@ + spec_two_digits(n as int));
}

fn push_four_digits(out: &mut Vec<char>, n: u32)
    requires
        n <= 9999,
    ensures
        final(out)@ == old(out)@ + spec_four_digits(n as int),
{
    out.push(digit_char(n / 1000));
    out.push(digit_char((n / 100) % 10));
    out.push(digit_char((n / 10) % 10));
    out.push(digit_char(n % 10));
    assert(out@ =~= old(out)@ + spec_four_digits(n as int));
}

/// "YYYY-MM" for a year and month.
pub open spec fn spec_format_ym(y: int, m: int) -> Seq<char> {
    spec_four_digits(y) + seq!['-'] + spec_two_digits(m)
}

pub fn format_ym(y: u32, m: u32) -> (r: Vec<char>)
    requires
        y <= 9999,
        m <= 99,
    ensures
        r@ == spec_format_ym(y as int, m as int),
{
    let mut out: Vec<char> = Vec::new();
    push_four_digits(&mut out, y);
    out.push('-');
    push_two_digits(&mut out, m);
    assert(out@ =~= spec_format_ym(y as int, m as int));
    out
}

/// "YYYY-MM-DD" for a calendar date.
pub open spec fn spec_format_ymd(d: CalendarDate) -> Seq<char> {
    spec_format_ym(d.year as int, d.month as int) + seq!['-'] + spec_two_digits(d.day as int)
}

pub fn format_ymd(d: CalendarDate) -> (r: Vec<char>)
    requires
        d.year <= 9999,
        d.month <= 99,
        d.day <= 99,
    ensures
        r@ == spec_format_ymd(d),
{
    let mut out: Vec<char> = format_ym(d.year, d.month);
    out.push('-');
    push_two_digits(&mut out, d.day);
    assert(out@ =~= spec_format_ymd(d));
    out
}

/// "YYYY-MM-DDTHH:MM:SS+00:00" for a UTC instant.
pub open spec fn spec_format_rfc3339(dt: UtcDateTime) -> Seq<char> {
    spec_format_ymd(dt.date()) + seq!['T'] + spec_two_digits(dt.hour as int) + seq![':']
        + spec_two_digits(dt.minute as int) + seq![':'] + spec_two_digits(dt.second as int)
        + seq!['+', '0', '0', ':', '0', '0']
}

pub fn format_rfc3339(dt: UtcDateTime) -> (r: Vec<char>)
    requires
        dt.year <= 9999,
        dt.month <= 99,
        dt.day <= 99,
        dt.hour <= 99,
        dt.minute <= 99,
        dt.second <= 99,
    ensures
        r@ == spec_format_rfc3339(dt),
{
    let mut out: Vec<char> = format_ymd(CalendarDate {
        year: dt.year,
        month: dt.month,
        day: dt.day,
    });
    out.push('T');
    push_two_digits(&mut out, dt.hour);
    out.push(':');
    push_two_digits(&mut out, dt.minute);
    out.push(':');
    push_two_digits(&mut out, dt.second);
    out.push('+');
    out.push('0');
    out.push('0');
    out.push(':');
    out.push('0');
    out.push('0');
    assert(out@ =~= spec_format_rfc3339(dt));
    out
}

/// Where a relative auction countdown lands in absolute time: coarse
/// countdowns are synchronized to fixed boundaries, so a day count is
/// anchored at 08:00 UTC of the current day (the game's daily server-save
/// boundary) and an hour count at the next hour boundary.
pub open spec fn spec_expiry_epoch(now: int, amount: int, unit_days: bool) -> int {
    if unit_days {
        (now - now % 86400) + 8 * 3600 + amount * 86400
    } else {
        (now - now % 3600) + 3600 + amount * 3600
    }
}

/// A resolved countdown lies strictly after the clock reading: the hour
/// anchor is already past `now`, and a day count of at least one clears the
/// same-day 08:00 anchor by a full day.
pub proof fn lemma_expiry_epoch_future(now: int, amount: int, unit_days: bool)
    requires
        now >= 0,
        amount >= 0,
        unit_days ==> amount >= 1,
    ensures
        spec_expiry_epoch(now, amount, unit_days) > now,
{
    if unit_days {
        assert(amount * 86400 >= 86400) by (nonlinear_arith)
            requires
                amount >= 1,
        ;
        assert(now % 86400 < 86400);
    } else {
        assert(amount * 3600 >= 0) by (nonlinear_arith)
            requires
                amount >= 0,
        ;
        assert(now % 3600 < 3600);
    }
}

/// Resolve a countdown to a UTC instant; `None` when the result would land
/// at year 10000 or beyond.
pub fn resolve_expiry(now: u64, amount: u32, unit_days: bool) -> (r: Option<UtcDateTime>)
    ensures
        match r {
            Some(dt) => {
                &&& dt.wf()
                &&& dt.year >= 1970
                &&& spec_epoch_seconds(dt) == spec_expiry_epoch(now as int, amount as int,
                    unit_days)
                &&& spec_expiry_epoch(now as int, amount as int, unit_days) < EPOCH_YEAR_10000
            },
            None => spec_expiry_epoch(now as int, amount as int, unit_days)
                >= EPOCH_YEAR_10000,
        },
{
    if now >= EPOCH_YEAR_10000 {
        proof {
            assert(EPOCH_YEAR_10000 as int % 86400 == 0);
            assert(now - now % 86400 >= EPOCH_YEAR_10000) by {
                assert(now as int == 86400 * (now as int / 86400) + now as int % 86400);
                assert(EPOCH_YEAR_10000 as int == 86400 * (EPOCH_YEAR_10000 as int / 86400));
                assert(now as int / 86400 >= EPOCH_YEAR_10000 as int / 86400) by (nonlinear_arith)
                    requires
                        now as int >= EPOCH_YEAR_10000 as int,
                        EPOCH_YEAR_10000 as int % 86400 == 0,
                ;
            };
            assert(now - now % 3600 + 3600 > now);
            assert(amount as int * 86400 >= 0) by (nonlinear_arith);
            assert(amount as int * 3600 >= 0) by (nonlinear_arith);
        }
        return None;
    }
    let epoch: u64 = if unit_days {
        let day_start: u64 = now - now % 86400;
        day_start + 8 * 3600 + (amount as u64) * 86400
    } else {
        let hour_start: u64 = now - now % 3600;
        hour_start + 3600 + (amount as u64) * 3600
    };
    if epoch >= EPOCH_YEAR_10000 {
        return None;
    }
    Some(epoch_to_utc(epoch))
}

} // verus!
