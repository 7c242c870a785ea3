//! Digit-run parsing: the pages write counts either as plain digit runs or
//! with thousands separators ("64,028"), and several fields are located as
//! "the first run of digits" inside a larger text fragment.

use vstd::prelude::*;

verus! {

pub open spec fn spec_is_digit(c: char) -> bool {
    '0' <= c && c <= '9'
}

pub fn is_digit(c: char) -> (r: bool)
    ensures
        r == spec_is_digit(c),
{
    '0' <= c && c <= '9'
}

pub open spec fn spec_digit_val(c: char) -> int {
    c as int - 48
}

/// The value of a digit string read left to right.
pub open spec fn spec_digits_value(s: Seq<char>) -> int
    decreases s.len(),
{
    if s.len() == 0 {
        0
    } else {
        spec_digits_value(s.drop_last()) * 10 + spec_digit_val(s.last())
    }
}

pub open spec fn spec_all_digits(s: Seq<char>) -> bool {
    forall|i: int| 0 <= i < s.len() ==> spec_is_digit(#[trigger] s[i])
}

/// What parsing a text as an unsigned 32-bit count yields: defined exactly
/// for a non-empty all-digit text whose value fits, and nothing else.
pub open spec fn spec_parse_u32(s: Seq<char>) -> Option<u32> {
    if s.len() >= 1 && spec_all_digits(s) && spec_digits_value(s) <= u32::MAX {
        Some(spec_digits_value(s) as u32)
    } else {
        None
    }
}

pub open spec fn spec_parse_u16(s: Seq<char>) -> Option<u16> {
    if s.len() >= 1 && spec_all_digits(s) && spec_digits_value(s) <= u16::MAX {
        Some(spec_digits_value(s) as u16)
    } else {
        None
    }
}

pub proof fn lemma_digits_value_nonneg(s: Seq<char>)
    requires
        spec_all_digits(s),
    ensures
        spec_digits_value(s) >= 0,
    decreases s.len(),
{
    if s.len() > 0 {
        assert(spec_all_digits(s.drop_last()));
        lemma_digits_value_nonneg(s.drop_last());
        assert(spec_digits_value(s.drop_last()) * 10 >= 0) by (nonlinear_arith)
            requires
                spec_digits_value(s.drop_last()) >= 0,
        ;
    }
}

pub open spec fn spec_pow10(n: nat) -> int
    decreases n,
{
    if n == 0 {
        1
    } else {
        10 * spec_pow10((n - 1) as nat)
    }
}

/// A digit string's value is bounded by its length.
pub proof fn lemma_digits_value_bound(s: Seq<char>)
    requires
        spec_all_digits(s),
    ensures
        0 <= spec_digits_value(s) < spec_pow10(s.len()),
    decreases s.len(),
{
    if s.len() == 0 {
    } else {
        assert(spec_all_digits(s.drop_last()));
        lemma_digits_value_bound(s.drop_last());
        let v = spec_digits_value(s.drop_last());
        let p = spec_pow10((s.len() - 1) as nat);
        assert(v * 10 <= (p - 1) * 10) by (nonlinear_arith)
            requires
                v <= p - 1,
        ;
        assert(spec_digit_val(s.last()) <= 9);
    }
}

/// A digit string's value only grows as digits are appended.
pub proof fn lemma_digits_value_mono(s: Seq<char>, k: int)
    requires
        spec_all_digits(s),
        0 <= k <= s.len(),
    ensures
        spec_digits_value(s.take(k)) <= spec_digits_value(s),
    decreases s.len() - k,
{
    if k < s.len() {
        lemma_digits_value_mono(s, k + 1);
        let t = s.take(k + 1);
        assert(t.drop_last() =~= s.take(k));
        assert(spec_all_digits(t));
        lemma_digits_value_nonneg(s.take(k));
        assert(spec_digits_value(s.take(k)) * 10 >= spec_digits_value(s.take(k)))
            by (nonlinear_arith)
            requires
                spec_digits_value(s.take(k)) >= 0,
        ;
        assert(spec_digit_val(t.last()) >= 0);
    } else {
        assert(s.take(k) =~= s);
    }
}

/// Parse `s[from..to]` as a u32 written in plain decimal digits.
pub fn parse_u32_range(s: &Vec<char>, from: usize, to: usize) -> (r: Option<u32>)
    requires
        from <= to <= s@.len(),
    ensures
        r == spec_parse_u32(s@.subrange(from as int, to as int)),
{
    let ghost sub = s@.subrange(from as int, to as int);
    if from == to {
        return None;
    }
    let mut acc: u64 = 0;
    let mut k: usize = 0;
    let n: usize = to - from;
    assert(sub.take(0) =~= Seq::<char>::empty());
    while k < n
        invariant
            n == sub.len(),
            sub == s@.subrange(from as int, to as int),
            from + n == to,
            to <= s@.len(),
            k <= n,
            spec_all_digits(sub.take(k as int)),
            acc == spec_digits_value(sub.take(k as int)),
            acc <= u32::MAX,
        decreases n - k,
    {
        let c: char = s[from + k];
        assert(c == sub[k as int]);
        if !is_digit(c) {
            return None;
        }
        let d: u64 = (c as u32 as u64) - 48;
        let acc2: u64 = acc * 10 + d;
        let ghost t = sub.take(k + 1);
        assert(t.drop_last() =~= sub.take(k as int));
        assert(t.last() == c);
        assert(acc2 == spec_digits_value(t));
        if acc2 > 0xFFFF_FFFF {
            proof {
                if spec_all_digits(sub) {
                    lemma_digits_value_mono(sub, k + 1);
                }
            }
            return None;
        }
        acc = acc2;
        k += 1;
    }
    assert(sub.take(n as int) =~= sub);
    Some(acc as u32)
}

/// Parse `s[from..to]` as a u16 written in plain decimal digits.
pub fn parse_u16_range(s: &Vec<char>, from: usize, to: usize) -> (r: Option<u16>)
    requires
        from <= to <= s@.len(),
    ensures
        r == spec_parse_u16(s@.subrange(from as int, to as int)),
{
    let ghost sub = s@.subrange(from as int, to as int);
    match parse_u32_range(s, from, to) {
        Some(v) => {
            proof {
                lemma_digits_value_nonneg(sub);
            }
            if v <= 0xFFFF {
                Some(v as u16)
            } else {
                None
            }
        },
        None => None,
    }
}

/// Parse a whole string as a u32 written in plain decimal digits.
pub fn parse_u32_str(s: &str) -> (r: Option<u32>)
    ensures
        r == spec_parse_u32(s@),
{
    let cs = crate::text::to_chars(s);
    assert(cs@.subrange(0, cs@.len() as int) =~= s@);
    parse_u32_range(&cs, 0, cs.len())
}

/// The end of the digit run starting at `from`: the first index at or after
/// `from` that is past the end or holds a non-digit.
pub open spec fn spec_digit_run_end(s: Seq<char>, from: int) -> int
    decreases s.len() - from when 0 <= from <= s.len()
{
    if from < s.len() && spec_is_digit(s[from]) {
        spec_digit_run_end(s, from + 1)
    } else {
        from
    }
}

pub fn digit_run_end(s: &Vec<char>, from: usize) -> (r: usize)
    requires
        from <= s@.len(),
    ensures
        r == spec_digit_run_end(s@, from as int),
        from <= r <= s@.len(),
{
    let mut i: usize = from;
    while i < s.len() && is_digit(s[i])
        invariant
            from <= i <= s@.len(),
            spec_digit_run_end(s@, from as int) == spec_digit_run_end(s@, i as int),
        decreases s.len() - i,
    {
        i += 1;
    }
    i
}

/// The first index at or after `from` holding a digit, if any.
pub open spec fn spec_first_digit(s: Seq<char>, from: int) -> Option<int>
    decreases s.len() - from when 0 <= from <= s.len()
{
    if from >= s.len() {
        None
    } else if spec_is_digit(s[from]) {
        Some(from)
    } else {
        spec_first_digit(s, from + 1)
    }
}

pub fn first_digit_from(s: &Vec<char>, from: usize) -> (r: Option<usize>)
    requires
        from <= s@.len(),
    ensures
        match r {
            Some(i) => spec_first_digit(s@, from as int) == Some(i as int) && from <= i
                < s@.len(),
            None => spec_first_digit(s@, from as int) is None,
        },
{
    let mut i: usize = from;
    while i < s.len()
        invariant
            from <= i <= s@.len(),
            spec_first_digit(s@, from as int) == spec_first_digit(s@, i as int),
        decreases s.len() - i,
    {
        if is_digit(s[i]) {
            return Some(i);
        }
        i += 1;
    }
    None
}

/// Whether a char belongs to a separator-grouped number run.
pub open spec fn spec_is_numsep(c: char) -> bool {
    spec_is_digit(c) || c == ','
}

/// The start of the run of digits and thousands separators that ends just
/// before `end`, scanning backwards.
pub open spec fn spec_numsep_run_start(s: Seq<char>, end: int) -> int
    decreases end when 0 <= end <= s.len()
{
    if end > 0 && spec_is_numsep(s[end - 1]) {
        spec_numsep_run_start(s, end - 1)
    } else {
        end
    }
}

pub fn numsep_run_start(s: &Vec<char>, end: usize) -> (r: usize)
    requires
        end <= s@.len(),
    ensures
        r == spec_numsep_run_start(s@, end as int),
        r <= end,
{
    let mut i: usize = end;
    while i > 0 && (is_digit(s[i - 1]) || s[i - 1] == ',')
        invariant
            i <= end <= s@.len(),
            spec_numsep_run_start(s@, end as int) == spec_numsep_run_start(s@, i as int),
        decreases i,
    {
        i -= 1;
    }
    i
}

/// The start of the plain digit run that ends just before `end`, scanning
/// backwards.
pub open spec fn spec_digit_run_back_start(s: Seq<char>, end: int) -> int
    decreases end when 0 <= end <= s.len()
{
    if end > 0 && spec_is_digit(s[end - 1]) {
        spec_digit_run_back_start(s, end - 1)
    } else {
        end
    }
}

pub fn digit_run_back_start(s: &Vec<char>, end: usize) -> (r: usize)
    requires
        end <= s@.len(),
    ensures
        r == spec_digit_run_back_start(s@, end as int),
        r <= end,
{
    let mut i: usize = end;
    while i > 0 && is_digit(s[i - 1])
        invariant
            i <= end <= s@.len(),
            spec_digit_run_back_start(s@, end as int) == spec_digit_run_back_start(s@, i as int),
        decreases i,
    {
        i -= 1;
    }
    i
}

/// `s` with every thousands separator removed.
pub open spec fn spec_strip_commas(s: Seq<char>) -> Seq<char>
    decreases s.len(),
{
    if s.len() == 0 {
        s
    } else if s.last() == ',' {
        spec_strip_commas(s.drop_last())
    } else {
        spec_strip_commas(s.drop_last()).push(s.last())
    }
}

pub fn strip_commas_range(s: &Vec<char>, from: usize, to: usize) -> (r: Vec<char>)
    requires
        from <= to <= s@.len(),
    ensures
        r@ == spec_strip_commas(s@.subrange(from as int, to as int)),
{
    let ghost sub = s@.subrange(from as int, to as int);
    let mut r: Vec<char> = Vec::new();
    let mut k: usize = 0;
    let n: usize = to - from;
    assert(sub.take(0) =~= Seq::<char>::empty());
    while k < n
        invariant
            n == sub.len(),
            sub == s@.subrange(from as int, to as int),
            from + n == to,
            to <= s@.len(),
            k <= n,
            r@ == spec_strip_commas(sub.take(k as int)),
        decreases n - k,
    {
        let c: char = s[from + k];
        assert(c == sub[k as int]);
        let ghost t = sub.take(k + 1);
        assert(t.drop_last() =~= sub.take(k as int));
        assert(t.last() == c);
        if c != ',' {
            r.push(c);
        }
        k += 1;
    }
    assert(sub.take(n as int) =~= sub);
    r
}

/// Parse a separator-grouped count: strip the commas, then read the digits.
pub fn parse_u32_numsep_range(s: &Vec<char>, from: usize, to: usize) -> (r: Option<u32>)
    requires
        from <= to <= s@.len(),
    ensures
        r == spec_parse_u32(spec_strip_commas(s@.subrange(from as int, to as int))),
{
    let stripped = strip_commas_range(s, from, to);
    assert(stripped@.subrange(0, stripped@.len() as int) =~= stripped@);
    parse_u32_range(&stripped, 0, stripped.len())
}

} // verus!
