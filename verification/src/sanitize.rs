//! Sanitization of scraped text: trimming and decoding of the small fixed
//! set of HTML entities and escape sequences that the pages carry.

use vstd::prelude::*;

use crate::text::spec_replace;
use crate::text::spec_trim;
use crate::text::replace_all;
use crate::text::string_from_chars;
use crate::text::to_chars;
use crate::text::trim_chars;

verus! {

/// Trimmed text with the escape sequences and entities decoded, in the
/// order the replacements are applied.
pub open spec fn spec_sanitize_string(s: Seq<char>) -> Seq<char> {
    let t = spec_trim(s);
    let t = spec_replace(t, seq!['\\', 'n'], Seq::<char>::empty());
    let t = spec_replace(t, seq!['\\', '"'], seq!['\'']);
    let t = spec_replace(t, seq!['\\', 'u', '0', '0', 'A', '0'], seq![' ']);
    let t = spec_replace(t, seq!['\\', 'u', '0', '0', '2', '6'], seq!['&']);
    // The longer escape's six-char prefix was already rewritten by the step
    // above, so this step can no longer fire; the chain still names every
    // escape form the pages carry, one step each.
    let t = spec_replace(t, seq!['\\', 'u', '0', '0', '2', '6', '#', '3', '9', ';'], seq!['\'']);
    let t = spec_replace(t, seq!['&', 'n', 'b', 's', 'p', ';'], seq![' ']);
    spec_replace(t, seq!['&', 'a', 'm', 'p', ';'], seq!['&'])
}

/// `spec_sanitize_string`, and the bare no-break space flattened to a
/// plain space.
pub open spec fn spec_sanitize(s: Seq<char>) -> Seq<char> {
    spec_replace(spec_sanitize_string(s), seq!['\u{a0}'], seq![' '])
}

fn pat2(a: char, b: char) -> (r: Vec<char>)
    ensures
        r@ == seq![a, b],
{
    let mut v: Vec<char> = Vec::new();
    v.push(a);
    v.push(b);
    assert(v@ =~= seq![a, b]);
    v
}

fn pat1(a: char) -> (r: Vec<char>)
    ensures
        r@ == seq![a],
{
    let mut v: Vec<char> = Vec::new();
    v.push(a);
    assert(v@ =~= seq![a]);
    v
}

fn pat6(a: char, b: char, c: char, d: char, e: char, f: char) -> (r: Vec<char>)
    ensures
        r@ == seq![a, b, c, d, e, f],
{
    let mut v: Vec<char> = Vec::new();
    v.push(a);
    v.push(b);
    v.push(c);
    v.push(d);
    v.push(e);
    v.push(f);
    assert(v@ =~= seq![a, b, c, d, e, f]);
    v
}

/// The shared replacement chain over chars.
pub fn sanitize_string_chars(s: &Vec<char>) -> (r: Vec<char>)
    ensures
        r@ == spec_sanitize_string(s@),
{
    let empty: Vec<char> = Vec::new();
    assert(empty@ =~= Seq::<char>::empty());
    let t = trim_chars(s);
    let t = replace_all(&t, &pat2('\\', 'n'), &empty);
    let t = replace_all(&t, &pat2('\\', '"'), &pat1('\''));
    let t = replace_all(&t, &pat6('\\', 'u', '0', '0', 'A', '0'), &pat1(' '));
    let t = replace_all(&t, &pat6('\\', 'u', '0', '0', '2', '6'), &pat1('&'));
    let mut long_pat: Vec<char> = pat6('\\', 'u', '0', '0', '2', '6');
    long_pat.push('#');
    long_pat.push('3');
    long_pat.push('9');
    long_pat.push(';');
    assert(long_pat@ =~= seq!['\\', 'u', '0', '0', '2', '6', '#', '3', '9', ';']);
    let t = replace_all(&t, &long_pat, &pat1('\''));
    let mut nbsp_pat: Vec<char> = pat6('&', 'n', 'b', 's', 'p', ';');
    assert(nbsp_pat@ =~= seq!['&', 'n', 'b', 's', 'p', ';']);
    let t = replace_all(&t, &nbsp_pat, &pat1(' '));
    let mut amp_pat: Vec<char> = Vec::new();
    amp_pat.push('&');
    amp_pat.push('a');
    amp_pat.push('m');
    amp_pat.push('p');
    amp_pat.push(';');
    assert(amp_pat@ =~= seq!['&', 'a', 'm', 'p', ';']);
    replace_all(&t, &amp_pat, &pat1('&'))
}

/// The full chain over chars, no-break spaces included.
pub fn sanitize_chars(s: &Vec<char>) -> (r: Vec<char>)
    ensures
        r@ == spec_sanitize(s@),
{
    let t = sanitize_string_chars(s);
    replace_all(&t, &pat1('\u{a0}'), &pat1(' '))
}

/// The full chain, from a string slice to an owned string.
pub fn sanitize_str(s: &str) -> (r: String)
    ensures
        r@ == spec_sanitize(s@),
{
    let cs = to_chars(s);
    let t = sanitize_chars(&cs);
    string_from_chars(&t)
}

/// Trim a page fragment and decode its escape sequences and entities.
pub fn sanitize_string(page: &str) -> (r: String)
    ensures
        r@ == spec_sanitize_string(page@),
{
    let cs = to_chars(page);
    let t = sanitize_string_chars(&cs);
    string_from_chars(&t)
}

/// Text cleaned in place before classification or parsing: the result is
/// exactly the full sanitization chain applied to the input.
pub trait Sanitizable: View<V = Seq<char>> + Sized {
    fn sanitize(self) -> (r: Self)
        ensures
            r@ == spec_sanitize(self@),
    ;
}

impl Sanitizable for String {
    fn sanitize(self) -> (r: String)
        ensures
            r@ == spec_sanitize(self@),
    {
        let cs = to_chars(self.as_str());
        let t = sanitize_chars(&cs);
        string_from_chars(&t)
    }
}

} // verus!
