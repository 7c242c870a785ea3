//! Access to the HTML structure of a page, through the scraper crate.
//!
//! Every query here is a pure function of the page text and the selector
//! strings: parsing the same text and matching the same selectors yields the
//! same elements in the same order — the parser's traversal order, which is
//! document order for well-formed pages. Each query's result is named
//! by an uninterpreted spec function, and the extractors' contracts are
//! stated over those names. A query returns `None` exactly when a selector
//! string is not valid CSS or, for the `in_nth` forms, when there is no
//! n-th match of the outer selector.

use vstd::prelude::*;

verus! {

/// The first text node of the page's `<title>` element, if any.
pub uninterp spec fn spec_page_title(page: Seq<char>) -> Option<Seq<char>>;

/// For each element matching `sel`, in traversal order: its inner HTML and
/// the list of its descendant text nodes.
pub uninterp spec fn spec_select_cells(page: Seq<char>, sel: Seq<char>) -> Option<
    Seq<(Seq<char>, Seq<Seq<char>>)>,
>;

/// For each element matching `sel`, in traversal order: the value of its
/// attribute `attr`, if set.
pub uninterp spec fn spec_select_attrs(page: Seq<char>, sel: Seq<char>, attr: Seq<char>) -> Option<
    Seq<Option<Seq<char>>>,
>;

/// Inner HTML and text nodes of each element matching `inner` inside the
/// n-th match of `outer`, in traversal order.
pub uninterp spec fn spec_select_in_nth_cells(
    page: Seq<char>,
    outer: Seq<char>,
    n: int,
    inner: Seq<char>,
) -> Option<Seq<(Seq<char>, Seq<Seq<char>>)>>;

/// Attribute `attr` of each element matching `inner` inside the n-th match
/// of `outer`, in traversal order.
pub uninterp spec fn spec_select_in_nth_attrs(
    page: Seq<char>,
    outer: Seq<char>,
    n: int,
    inner: Seq<char>,
    attr: Seq<char>,
) -> Option<Seq<Option<Seq<char>>>>;

/// Relies on scraper::Html::parse_document and ElementRef::text: the first
/// text node under the document's first `<title>` element.
#[verifier::external_body]
pub fn page_title(page: &str) -> (r: Option<String>)
    ensures
        r matches Some(t) ==> spec_page_title(page@) == Some(t@),
        r is None ==> spec_page_title(page@) is None,
{
    let doc = scraper::Html::parse_document(page);
    let sel = match scraper::Selector::parse("title") {
        Ok(s) => s,
        Err(_) => return None,
    };
    let el = doc.select(&sel).next()?;
    let t = el.text().next()?;
    Some(t.to_string())
}

/// Relies on scraper::Html::parse_document, Selector::parse, Html::select,
/// ElementRef::inner_html and ElementRef::text: the matches of a selector
/// over the document, in traversal order, each as its inner HTML plus its
/// descendant text nodes.
#[verifier::external_body]
pub fn select_cells(page: &str, sel: &str) -> (r: Option<Vec<(String, Vec<String>)>>)
    ensures
        r matches Some(v) ==> spec_select_cells(page@, sel@) == Some(v.deep_view()),
        r is None ==> spec_select_cells(page@, sel@) is None,
{
    let doc = scraper::Html::parse_document(page);
    let s = match scraper::Selector::parse(sel) {
        Ok(s) => s,
        Err(_) => return None,
    };
    let v = doc
        .select(&s)
        .map(|e| (e.inner_html(), e.text().map(|t| t.to_string()).collect()))
        .collect();
    Some(v)
}

/// Relies on scraper::Html::parse_document, Html::select and
/// ElementRef::attr: one attribute of each match of a selector over the
/// document, in traversal order.
#[verifier::external_body]
pub fn select_attrs(page: &str, sel: &str, attr: &str) -> (r: Option<Vec<Option<String>>>)
    ensures
        r matches Some(v) ==> spec_select_attrs(page@, sel@, attr@) == Some(v.deep_view()),
        r is None ==> spec_select_attrs(page@, sel@, attr@) is None,
{
    let doc = scraper::Html::parse_document(page);
    let s = match scraper::Selector::parse(sel) {
        Ok(s) => s,
        Err(_) => return None,
    };
    let v = doc.select(&s).map(|e| e.attr(attr).map(|a| a.to_string())).collect();
    Some(v)
}

/// Relies on scraper::Html::parse_document, Html::select,
/// ElementRef::select, ElementRef::inner_html and ElementRef::text: the
/// matches of `inner` among the descendants of the n-th match of `outer`,
/// in traversal order.
#[verifier::external_body]
pub fn select_in_nth_cells(page: &str, outer: &str, n: usize, inner: &str) -> (r: Option<
    Vec<(String, Vec<String>)>,
>)
    ensures
        r matches Some(v) ==> spec_select_in_nth_cells(page@, outer@, n as int, inner@) == Some(
            v.deep_view(),
        ),
        r is None ==> spec_select_in_nth_cells(page@, outer@, n as int, inner@) is None,
{
    let doc = scraper::Html::parse_document(page);
    let osel = match scraper::Selector::parse(outer) {
        Ok(s) => s,
        Err(_) => return None,
    };
    let isel = match scraper::Selector::parse(inner) {
        Ok(s) => s,
        Err(_) => return None,
    };
    let el = doc.select(&osel).nth(n)?;
    let v = el
        .select(&isel)
        .map(|e| (e.inner_html(), e.text().map(|t| t.to_string()).collect()))
        .collect();
    Some(v)
}

/// Relies on scraper::Html::parse_document, Html::select,
/// ElementRef::select and ElementRef::attr: one attribute of each match of
/// `inner` among the descendants of the n-th match of `outer`, in traversal
/// order.
#[verifier::external_body]
pub fn select_in_nth_attrs(page: &str, outer: &str, n: usize, inner: &str, attr: &str) -> (r:
    Option<Vec<Option<String>>>)
    ensures
        r matches Some(v) ==> spec_select_in_nth_attrs(page@, outer@, n as int, inner@, attr@)
            == Some(v.deep_view()),
        r is None ==> spec_select_in_nth_attrs(page@, outer@, n as int, inner@, attr@) is None,
{
    let doc = scraper::Html::parse_document(page);
    let osel = match scraper::Selector::parse(outer) {
        Ok(s) => s,
        Err(_) => return None,
    };
    let isel = match scraper::Selector::parse(inner) {
        Ok(s) => s,
        Err(_) => return None,
    };
    let el = doc.select(&osel).nth(n)?;
    let v = el.select(&isel).map(|e| e.attr(attr).map(|a| a.to_string())).collect();
    Some(v)
}

} // verus!
