//! The date and time text forms that the upstream pages use, parsed into
//! plain calendar values: "Nov 28 2007, 19:26:00 CET" (a local reading with
//! an explicit CET/CEST label, turned into UTC by its fixed offset),
//! "August 29, 2017", "10/20" and "October 2020".

use vstd::prelude::*;

use crate::num::spec_digit_run_end;
use crate::num::spec_parse_u32;
use crate::num::digit_run_end;
use crate::num::parse_u32_range;
use crate::text::spec_find;
use crate::text::find_from;
use crate::text::to_chars;
use crate::time::CalendarDate;
use crate::time::UtcDateTime;
use crate::time::spec_format_rfc3339;
use crate::time::spec_format_ym;
use crate::time::spec_format_ymd;
use crate::time::spec_shift_back_hours;
use crate::time::format_rfc3339;
use crate::time::format_ym;
use crate::time::format_ymd;
use crate::time::shift_back_hours;
use crate::text::string_from_chars;

verus! {

/// A one-char search pattern.
pub fn char_pat(c: char) -> (r: Vec<char>)
    ensures
        r@ == seq![c],
{
    let mut v: Vec<char> = Vec::new();
    v.push(c);
    assert(v@ =~= seq![c]);
    v
}

/// Whether `s[from..to]` spells exactly `lit`.
pub fn range_eq_str(s: &Vec<char>, from: usize, to: usize, lit: &str) -> (r: bool)
    requires
        from <= to <= s@.len(),
    ensures
        r == (s@.subrange(from as int, to as int) == lit@),
{
    let lv = to_chars(lit);
    if to - from != lv.len() {
        assert(s@.subrange(from as int, to as int).len() != lit@.len());
        return false;
    }
    let n: usize = to - from;
    let mut k: usize = 0;
    while k < n
        invariant
            from + n == to,
            to <= s@.len(),
            n == lv@.len(),
            lv@ == lit@,
            k <= n,
            forall|j: int| 0 <= j < k ==> s@[from + j] == lit@[j],
        decreases n - k,
    {
        if s[from + k] != lv[k] {
            assert(s@.subrange(from as int, to as int)[k as int] != lit@[k as int]);
            return false;
        }
        k += 1;
    }
    assert(s@.subrange(from as int, to as int) =~= lit@);
    true
}

/// Whether the chars spell exactly `lit`.
pub fn chars_eq_str(s: &Vec<char>, lit: &str) -> (r: bool)
    ensures
        r == (s@ == lit@),
{
    let n: usize = s.len();
    assert(s@.subrange(0, n as int) =~= s@);
    range_eq_str(s, 0, n, lit)
}

/// The month written `s`, abbreviated or in full.
pub open spec fn spec_month_from_name(s: Seq<char>) -> Option<u32> {
    if s == "Jan"@ || s == "January"@ {
        Some(1u32)
    } else if s == "Feb"@ || s == "February"@ {
        Some(2u32)
    } else if s == "Mar"@ || s == "March"@ {
        Some(3u32)
    } else if s == "Apr"@ || s == "April"@ {
        Some(4u32)
    } else if s == "May"@ {
        Some(5u32)
    } else if s == "Jun"@ || s == "June"@ {
        Some(6u32)
    } else if s == "Jul"@ || s == "July"@ {
        Some(7u32)
    } else if s == "Aug"@ || s == "August"@ {
        Some(8u32)
    } else if s == "Sep"@ || s == "September"@ {
        Some(9u32)
    } else if s == "Oct"@ || s == "October"@ {
        Some(10u32)
    } else if s == "Nov"@ || s == "November"@ {
        Some(11u32)
    } else if s == "Dec"@ || s == "December"@ {
        Some(12u32)
    } else {
        None
    }
}

pub fn month_from_name(s: &Vec<char>, from: usize, to: usize) -> (r: Option<u32>)
    requires
        from <= to <= s@.len(),
    ensures
        r == spec_month_from_name(s@.subrange(from as int, to as int)),
{
    if range_eq_str(s, from, to, "Jan") || range_eq_str(s, from, to, "January") {
        Some(1)
    } else if range_eq_str(s, from, to, "Feb") || range_eq_str(s, from, to, "February") {
        Some(2)
    } else if range_eq_str(s, from, to, "Mar") || range_eq_str(s, from, to, "March") {
        Some(3)
    } else if range_eq_str(s, from, to, "Apr") || range_eq_str(s, from, to, "April") {
        Some(4)
    } else if range_eq_str(s, from, to, "May") {
        Some(5)
    } else if range_eq_str(s, from, to, "Jun") || range_eq_str(s, from, to, "June") {
        Some(6)
    } else if range_eq_str(s, from, to, "Jul") || range_eq_str(s, from, to, "July") {
        Some(7)
    } else if range_eq_str(s, from, to, "Aug") || range_eq_str(s, from, to, "August") {
        Some(8)
    } else if range_eq_str(s, from, to, "Sep") || range_eq_str(s, from, to, "September") {
        Some(9)
    } else if range_eq_str(s, from, to, "Oct") || range_eq_str(s, from, to, "October") {
        Some(10)
    } else if range_eq_str(s, from, to, "Nov") || range_eq_str(s, from, to, "November") {
        Some(11)
    } else if range_eq_str(s, from, to, "Dec") || range_eq_str(s, from, to, "December") {
        Some(12)
    } else {
        None
    }
}

/// The decimal number starting at `i` and the index just past it: `None`
/// when no digit stands at `i` or the run's value does not fit in 32 bits.
pub open spec fn spec_num_token(s: Seq<char>, i: int) -> Option<(u32, int)> {
    let e = spec_digit_run_end(s, i);
    if i < e {
        match spec_parse_u32(s.subrange(i, e)) {
            Some(v) => Some((v, e)),
            None => None,
        }
    } else {
        None
    }
}

pub fn num_token(s: &Vec<char>, i: usize) -> (r: Option<(u32, usize)>)
    requires
        i <= s@.len(),
    ensures
        match r {
            Some((v, e)) => spec_num_token(s@, i as int) == Some((v, e as int)) && i < e
                <= s@.len(),
            None => spec_num_token(s@, i as int) is None,
        },
{
    let e: usize = digit_run_end(s, i);
    if i < e {
        match parse_u32_range(s, i, e) {
            Some(v) => Some((v, e)),
            None => None,
        }
    } else {
        None
    }
}

/// The fields scanned from "<Month> <d> <yyyy>, <hh>:<mm>:<ss> <tz>", with
/// the tz label's fixed offset in hours; unvalidated.
pub open spec fn spec_scan_cet(s: Seq<char>) -> Option<(UtcDateTime, u32)> {
    let spo = spec_find(s, seq![' '], 0);
    if spo is None {
        None
    } else {
        let sp = spo->Some_0;
        let mo = spec_month_from_name(s.subrange(0, sp));
        let dayt = spec_num_token(s, sp + 1);
        if mo is None || dayt is None {
            None
        } else {
            let p1 = dayt->Some_0.1;
            if !(p1 < s.len() && s[p1] == ' ') {
                None
            } else {
                let yt = spec_num_token(s, p1 + 1);
                if yt is None {
                    None
                } else {
                    let p2 = yt->Some_0.1;
                    if !(p2 == p1 + 5 && p2 + 1 < s.len() && s[p2] == ',' && s[p2 + 1] == ' ') {
                        None
                    } else {
                        let ht = spec_num_token(s, p2 + 2);
                        if ht is None {
                            None
                        } else {
                            let p3 = ht->Some_0.1;
                            if !(p3 < s.len() && s[p3] == ':') {
                                None
                            } else {
                                let mt = spec_num_token(s, p3 + 1);
                                if mt is None {
                                    None
                                } else {
                                    let p4 = mt->Some_0.1;
                                    if !(p4 < s.len() && s[p4] == ':') {
                                        None
                                    } else {
                                        let st = spec_num_token(s, p4 + 1);
                                        if st is None {
                                            None
                                        } else {
                                            let p5 = st->Some_0.1;
                                            if !(p5 < s.len() && s[p5] == ' ') {
                                                None
                                            } else {
                                                let tz = s.subrange(p5 + 1, s.len() as int);
                                                let dt = UtcDateTime {
                                                    year: yt->Some_0.0,
                                                    month: mo->Some_0,
                                                    day: dayt->Some_0.0,
                                                    hour: ht->Some_0.0,
                                                    minute: mt->Some_0.0,
                                                    second: st->Some_0.0,
                                                };
                                                if tz == "CET"@ {
                                                    Some((dt, 1u32))
                                                } else if tz == "CEST"@ {
                                                    Some((dt, 2u32))
                                                } else {
                                                    None
                                                }
                                            }
                                        }
                                    }
                                }
                            }
                        }
                    }
                }
            }
        }
    }
}

/// Rule A: a local reading labelled CET (UTC+1) or CEST (UTC+2), moved to
/// UTC by subtracting the fixed offset. No other label is accepted.
pub open spec fn spec_parse_cet_datetime(s: Seq<char>) -> Option<UtcDateTime> {
    match spec_scan_cet(s) {
        None => None,
        Some((dt, off)) => {
            if dt.year >= 1 && dt.wf() {
                Some(spec_shift_back_hours(dt, off as int))
            } else {
                None
            }
        },
    }
}

pub fn parse_cet_datetime(s: &Vec<char>) -> (r: Option<UtcDateTime>)
    ensures
        r == spec_parse_cet_datetime(s@),
        r matches Some(dt) ==> dt.wf() && dt.year <= 9999,
{
    let slen: usize = s.len();
    let space = char_pat(' ');
    let sp: usize = match find_from(s, &space, 0) {
        Some(i) => i,
        None => {
            return None;
        },
    };
    let mo = month_from_name(s, 0, sp);
    let dayt = num_token(s, sp + 1);
    if mo.is_none() || dayt.is_none() {
        return None;
    }
    let month: u32 = mo.unwrap();
    let (day, p1) = dayt.unwrap();
    if !(p1 < slen && s[p1] == ' ') {
        return None;
    }
    let yt = num_token(s, p1 + 1);
    let (year, p2) = match yt {
        Some(t) => t,
        None => {
            return None;
        },
    };
    if !(p2 - p1 == 5 && p2 < slen && p2 + 1 < slen && s[p2] == ',' && s[p2 + 1] == ' ') {
        return None;
    }
    let ht = num_token(s, p2 + 2);
    let (hour, p3) = match ht {
        Some(t) => t,
        None => {
            return None;
        },
    };
    if !(p3 < slen && s[p3] == ':') {
        return None;
    }
    let mt = num_token(s, p3 + 1);
    let (minute, p4) = match mt {
        Some(t) => t,
        None => {
            return None;
        },
    };
    if !(p4 < slen && s[p4] == ':') {
        return None;
    }
    let st = num_token(s, p4 + 1);
    let (second, p5) = match st {
        Some(t) => t,
        None => {
            return None;
        },
    };
    if !(p5 < slen && s[p5] == ' ') {
        return None;
    }
    let off: u32 = if range_eq_str(s, p5 + 1, slen, "CET") {
        1
    } else if range_eq_str(s, p5 + 1, slen, "CEST") {
        2
    } else {
        return None;
    };
    let dt = UtcDateTime { year, month, day, hour, minute, second };
    proof {
        assert(spec_scan_cet(s@) == Some((dt, off)));
    }
    if year >= 1 && 1 <= day && day <= crate::time::days_in_month(year, month) && hour <= 23
        && minute <= 59 && second <= 59 {
        assert(year <= 9999) by {
            crate::num::lemma_digits_value_bound(s@.subrange(p1 + 1, p2 as int));
            reveal_with_fuel(crate::num::spec_pow10, 5);
        }
        Some(shift_back_hours(dt, off))
    } else {
        None
    }
}

/// The date written "<Month> <d>, <yyyy>".
pub open spec fn spec_scan_month_day_year(s: Seq<char>) -> Option<CalendarDate> {
    let spo = spec_find(s, seq![' '], 0);
    if spo is None {
        None
    } else {
        let sp = spo->Some_0;
        let mo = spec_month_from_name(s.subrange(0, sp));
        let dayt = spec_num_token(s, sp + 1);
        if mo is None || dayt is None {
            None
        } else {
            let p1 = dayt->Some_0.1;
            if !(p1 + 1 < s.len() && s[p1] == ',' && s[p1 + 1] == ' ') {
                None
            } else {
                let yt = spec_num_token(s, p1 + 2);
                if yt is None {
                    None
                } else {
                    let p2 = yt->Some_0.1;
                    if !(p2 == p1 + 6 && p2 == s.len()) {
                        None
                    } else {
                        Some(
                            CalendarDate {
                                year: yt->Some_0.0,
                                month: mo->Some_0,
                                day: dayt->Some_0.0,
                            },
                        )
                    }
                }
            }
        }
    }
}

pub open spec fn spec_parse_month_day_year(s: Seq<char>) -> Option<CalendarDate> {
    match spec_scan_month_day_year(s) {
        None => None,
        Some(d) => {
            if d.year >= 1 && d.wf() {
                Some(d)
            } else {
                None
            }
        },
    }
}

pub fn parse_month_day_year(s: &Vec<char>) -> (r: Option<CalendarDate>)
    ensures
        r == spec_parse_month_day_year(s@),
        r matches Some(d) ==> d.wf() && d.year <= 9999,
{
    let slen: usize = s.len();
    let space = char_pat(' ');
    let sp: usize = match find_from(s, &space, 0) {
        Some(i) => i,
        None => {
            return None;
        },
    };
    let mo = month_from_name(s, 0, sp);
    let dayt = num_token(s, sp + 1);
    if mo.is_none() || dayt.is_none() {
        return None;
    }
    let month: u32 = mo.unwrap();
    let (day, p1) = dayt.unwrap();
    if !(p1 < slen && p1 + 1 < slen && s[p1] == ',' && s[p1 + 1] == ' ') {
        return None;
    }
    let yt = num_token(s, p1 + 2);
    let (year, p2) = match yt {
        Some(t) => t,
        None => {
            return None;
        },
    };
    if !(p2 - p1 == 6 && p2 == slen) {
        return None;
    }
    let d = CalendarDate { year, month, day };
    proof {
        assert(spec_scan_month_day_year(s@) == Some(d));
    }
    if year >= 1 && 1 <= day && day <= crate::time::days_in_month(year, month) {
        assert(year <= 9999) by {
            crate::num::lemma_digits_value_bound(s@.subrange(p1 + 2, p2 as int));
            reveal_with_fuel(crate::num::spec_pow10, 5);
        }
        Some(d)
    } else {
        None
    }
}

/// The date written "<Month> <d> <yyyy>", with no comma.
pub open spec fn spec_scan_month_day_year_nc(s: Seq<char>) -> Option<CalendarDate> {
    let spo = spec_find(s, seq![' '], 0);
    if spo is None {
        None
    } else {
        let sp = spo->Some_0;
        let mo = spec_month_from_name(s.subrange(0, sp));
        let dayt = spec_num_token(s, sp + 1);
        if mo is None || dayt is None {
            None
        } else {
            let p1 = dayt->Some_0.1;
            if !(p1 < s.len() && s[p1] == ' ') {
                None
            } else {
                let yt = spec_num_token(s, p1 + 1);
                if yt is None {
                    None
                } else {
                    let p2 = yt->Some_0.1;
                    if !(p2 == p1 + 5 && p2 == s.len()) {
                        None
                    } else {
                        Some(
                            CalendarDate {
                                year: yt->Some_0.0,
                                month: mo->Some_0,
                                day: dayt->Some_0.0,
                            },
                        )
                    }
                }
            }
        }
    }
}

pub open spec fn spec_parse_month_day_year_nc(s: Seq<char>) -> Option<CalendarDate> {
    match spec_scan_month_day_year_nc(s) {
        None => None,
        Some(d) => {
            if d.year >= 1 && d.wf() {
                Some(d)
            } else {
                None
            }
        },
    }
}

pub fn parse_month_day_year_nc(s: &Vec<char>) -> (r: Option<CalendarDate>)
    ensures
        r == spec_parse_month_day_year_nc(s@),
        r matches Some(d) ==> d.wf() && d.year <= 9999,
{
    let slen: usize = s.len();
    let space = char_pat(' ');
    let sp: usize = match find_from(s, &space, 0) {
        Some(i) => i,
        None => {
            return None;
        },
    };
    let mo = month_from_name(s, 0, sp);
    let dayt = num_token(s, sp + 1);
    if mo.is_none() || dayt.is_none() {
        return None;
    }
    let month: u32 = mo.unwrap();
    let (day, p1) = dayt.unwrap();
    if !(p1 < slen && s[p1] == ' ') {
        return None;
    }
    let yt = num_token(s, p1 + 1);
    let (year, p2) = match yt {
        Some(t) => t,
        None => {
            return None;
        },
    };
    if !(p2 - p1 == 5 && p2 == slen) {
        return None;
    }
    let d = CalendarDate { year, month, day };
    proof {
        assert(spec_scan_month_day_year_nc(s@) == Some(d));
    }
    if year >= 1 && 1 <= day && day <= crate::time::days_in_month(year, month) {
        assert(year <= 9999) by {
            crate::num::lemma_digits_value_bound(s@.subrange(p1 + 1, p2 as int));
            reveal_with_fuel(crate::num::spec_pow10, 5);
        }
        Some(d)
    } else {
        None
    }
}

/// The month written "<m>/<yy>", with two-digit years 00 to 68 read as the
/// 2000s and 69 to 99 as the 1900s.
pub open spec fn spec_parse_mm_yy(s: Seq<char>) -> Option<(u32, u32)> {
    let mt = spec_num_token(s, 0);
    if mt is None {
        None
    } else {
        let m = mt->Some_0.0;
        let p1 = mt->Some_0.1;
        if !(p1 <= 2 && p1 < s.len() && s[p1] == '/') {
            None
        } else {
            let yt = spec_num_token(s, p1 + 1);
            if yt is None {
                None
            } else {
                let yy = yt->Some_0.0;
                let p2 = yt->Some_0.1;
                if !(p2 == p1 + 3 && p2 == s.len() && 1 <= m <= 12) {
                    None
                } else if yy <= 68 {
                    Some(((2000 + yy) as u32, m))
                } else {
                    Some(((1900 + yy) as u32, m))
                }
            }
        }
    }
}

pub fn parse_mm_yy(s: &Vec<char>) -> (r: Option<(u32, u32)>)
    ensures
        r == spec_parse_mm_yy(s@),
        r matches Some(p) ==> 1900 <= p.0 <= 2068 && 1 <= p.1 <= 12,
{
    let mt = num_token(s, 0);
    let (m, p1) = match mt {
        Some(t) => t,
        None => {
            return None;
        },
    };
    if !(p1 <= 2 && p1 < s.len() && s[p1] == '/') {
        return None;
    }
    let yt = num_token(s, p1 + 1);
    let (yy, p2) = match yt {
        Some(t) => t,
        None => {
            return None;
        },
    };
    if !(p2 - p1 == 3 && p2 == s.len() && 1 <= m && m <= 12) {
        return None;
    }
    proof {
        crate::num::lemma_digits_value_bound(s@.subrange(p1 + 1, p2 as int));
        reveal_with_fuel(crate::num::spec_pow10, 3);
        assert(yy <= 99);
    }
    if yy <= 68 {
        Some((2000 + yy, m))
    } else {
        Some((1900 + yy, m))
    }
}

/// The month written "<Month> <yyyy>".
pub open spec fn spec_parse_month_year(s: Seq<char>) -> Option<(u32, u32)> {
    let spo = spec_find(s, seq![' '], 0);
    if spo is None {
        None
    } else {
        let sp = spo->Some_0;
        let mo = spec_month_from_name(s.subrange(0, sp));
        let yt = spec_num_token(s, sp + 1);
        if mo is None || yt is None {
            None
        } else {
            let p1 = yt->Some_0.1;
            if !(p1 == sp + 5 && p1 == s.len()) {
                None
            } else {
                Some((yt->Some_0.0, mo->Some_0))
            }
        }
    }
}

pub fn parse_month_year(s: &Vec<char>) -> (r: Option<(u32, u32)>)
    ensures
        r == spec_parse_month_year(s@),
        r matches Some(p) ==> p.0 <= 9999 && 1 <= p.1 <= 12,
{
    let slen: usize = s.len();
    let space = char_pat(' ');
    let sp: usize = match find_from(s, &space, 0) {
        Some(i) => i,
        None => {
            return None;
        },
    };
    let mo = month_from_name(s, 0, sp);
    let yt = num_token(s, sp + 1);
    if mo.is_none() || yt.is_none() {
        return None;
    }
    let month: u32 = mo.unwrap();
    let (year, p1) = yt.unwrap();
    if !(p1 - sp == 5 && p1 == slen) {
        return None;
    }
    proof {
        crate::num::lemma_digits_value_bound(s@.subrange(sp + 1, p1 as int));
        reveal_with_fuel(crate::num::spec_pow10, 5);
    }
    Some((year, month))
}

/// Which of the three text shapes a parsed time carries.
#[derive(Clone, Copy, Debug, PartialEq, Eq, Structural)]
pub enum TimeTextKind {
    DateTime,
    Date,
    Month,
}

#[derive(Debug, Clone, Copy, PartialEq, Eq, Structural)]
pub struct ParseTimeError;

/// A parsed upstream time, kept as the text the API serves: a full UTC
/// timestamp, a bare date, or a year and month.
#[derive(Debug, Clone, PartialEq)]
pub enum TibiaTime {
    YMDHMS(String),
    YMD(String),
    YM(String),
}

impl TibiaTime {
    pub open spec fn kind(self) -> TimeTextKind {
        match self {
            TibiaTime::YMDHMS(_) => TimeTextKind::DateTime,
            TibiaTime::YMD(_) => TimeTextKind::Date,
            TibiaTime::YM(_) => TimeTextKind::Month,
        }
    }

    pub open spec fn text(self) -> Seq<char> {
        match self {
            TibiaTime::YMDHMS(s) => s@,
            TibiaTime::YMD(s) => s@,
            TibiaTime::YM(s) => s@,
        }
    }

    /// What parsing a time text yields: the first of the four forms that
    /// fits, rendered as the text the API serves.
    pub open spec fn spec_parse(s: Seq<char>) -> Option<(TimeTextKind, Seq<char>)> {
        if spec_parse_cet_datetime(s) is Some {
            Some(
                (
                    TimeTextKind::DateTime,
                    spec_format_rfc3339(spec_parse_cet_datetime(s)->Some_0),
                ),
            )
        } else if spec_parse_month_day_year(s) is Some {
            Some((TimeTextKind::Date, spec_format_ymd(spec_parse_month_day_year(s)->Some_0)))
        } else if spec_parse_mm_yy(s) is Some {
            let p = spec_parse_mm_yy(s)->Some_0;
            Some((TimeTextKind::Month, spec_format_ym(p.0 as int, p.1 as int)))
        } else if spec_parse_month_year(s) is Some {
            let p = spec_parse_month_year(s)->Some_0;
            Some((TimeTextKind::Month, spec_format_ym(p.0 as int, p.1 as int)))
        } else {
            None
        }
    }

    pub fn from_str(s: &str) -> (r: Result<TibiaTime, ParseTimeError>)
        ensures
            match r {
                Ok(t) => Self::spec_parse(s@) == Some((t.kind(), t.text())),
                Err(_) => Self::spec_parse(s@) is None,
            },
    {
        let cs = to_chars(s);
        if let Some(dt) = parse_cet_datetime(&cs) {
            let txt = format_rfc3339(dt);
            return Ok(TibiaTime::YMDHMS(string_from_chars(&txt)));
        }
        if let Some(d) = parse_month_day_year(&cs) {
            let txt = format_ymd(d);
            return Ok(TibiaTime::YMD(string_from_chars(&txt)));
        }
        if let Some((y, m)) = parse_mm_yy(&cs) {
            let txt = format_ym(y, m);
            return Ok(TibiaTime::YM(string_from_chars(&txt)));
        }
        if let Some((y, m)) = parse_month_year(&cs) {
            let txt = format_ym(y, m);
            return Ok(TibiaTime::YM(string_from_chars(&txt)));
        }
        Err(ParseTimeError)
    }

    /// The text this time serializes to.
    pub fn to_string(&self) -> (r: String)
        ensures
            r@ == self.text(),
    {
        match self {
            TibiaTime::YMDHMS(s) => s.clone(),
            TibiaTime::YMD(s) => s.clone(),
            TibiaTime::YM(s) => s.clone(),
        }
    }
}

impl Default for TibiaTime {
    fn default() -> (r: Self)
        ensures
            r.kind() == TimeTextKind::DateTime,
            r.text() == Seq::<char>::empty(),
    {
        TibiaTime::YMDHMS(String::new())
    }
}

} // verus!
