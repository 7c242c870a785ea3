//! The towns extractor: the houses page lists every town that has houses,
//! as checkbox inputs in the last listing table. Their order is significant
//! and preserved — it is the canonical order that default residence
//! aggregation consumes.

use vstd::prelude::*;

use crate::classify::is_maintenance_page;
use crate::classify::spec_is_maintenance_page;
use crate::dom::select_cells;
use crate::dom::select_in_nth_attrs;
use crate::dom::spec_select_cells;
use crate::dom::spec_select_in_nth_attrs;
use crate::error::TibiaError;
use crate::sanitize::sanitize_str;
use crate::sanitize::spec_sanitize;

verus! {

/// Whether any of the selected elements lacks the attribute.
pub open spec fn spec_some_attr_missing(attrs: Seq<Option<Seq<char>>>) -> bool {
    exists|i: int| 0 <= i < attrs.len() && attrs[i] is None
}

/// The sanitized town names carried by the checkbox values, in document
/// order.
pub open spec fn spec_towns_of(attrs: Seq<Option<Seq<char>>>) -> Seq<Seq<char>> {
    attrs.map_values(|o: Option<Seq<char>>| spec_sanitize(o->Some_0))
}

/// What towns extraction yields on a page: the maintenance sentinel wins;
/// otherwise the town checkboxes of the last houses listing table, in page
/// order; any structural miss is a drifted page.
pub open spec fn spec_parse_towns_page(page: Seq<char>) -> Result<Seq<Seq<char>>, TibiaError> {
    if spec_is_maintenance_page(page) {
        Err(TibiaError::Maintenance)
    } else {
        let tables = spec_select_cells(page, ".main-content #houses table.TableContent"@);
        if tables is None || tables->Some_0.len() == 0 {
            Err(TibiaError::UnexpectedPageContent)
        } else {
            let attrs = spec_select_in_nth_attrs(
                page,
                ".main-content #houses table.TableContent"@,
                tables->Some_0.len() - 1,
                "input[name=town]"@,
                "value"@,
            );
            if attrs is None || spec_some_attr_missing(attrs->Some_0) {
                Err(TibiaError::UnexpectedPageContent)
            } else {
                Ok(spec_towns_of(attrs->Some_0))
            }
        }
    }
}

/// Extract the towns list from the houses page.
///
/// There is no not-found outcome: the houses listing always exists, so any
/// shape mismatch means the page format has drifted.
#[verifier::loop_isolation(false)]
pub fn parse_towns_page(page: &str) -> (r: Result<Vec<String>, TibiaError>)
    ensures
        match r {
            Ok(v) => spec_parse_towns_page(page@) == Ok::<_, TibiaError>(v.deep_view()),
            Err(e) => spec_parse_towns_page(page@) == Err::<Seq<Seq<char>>, _>(e),
        },
{
    if is_maintenance_page(page) {
        return Err(TibiaError::Maintenance);
    }
    let tables = match select_cells(page, ".main-content #houses table.TableContent") {
        Some(t) => t,
        None => {
            return Err(TibiaError::UnexpectedPageContent);
        },
    };
    if tables.len() == 0 {
        return Err(TibiaError::UnexpectedPageContent);
    }
    let attrs = match select_in_nth_attrs(
        page,
        ".main-content #houses table.TableContent",
        tables.len() - 1,
        "input[name=town]",
        "value",
    ) {
        Some(a) => a,
        None => {
            return Err(TibiaError::UnexpectedPageContent);
        },
    };
    let ghost ga = attrs.deep_view();
    let mut towns: Vec<String> = Vec::new();
    let mut i: usize = 0;
    while i < attrs.len()
        invariant
            ga == attrs.deep_view(),
            i <= attrs@.len(),
            ga.len() == attrs@.len(),
            towns.deep_view().len() == i,
            forall|j: int| 0 <= j < i ==> (#[trigger] ga[j]) is Some,
            forall|j: int|
                0 <= j < i ==> #[trigger] towns.deep_view()[j] == spec_sanitize(ga[j]->Some_0),
        decreases attrs@.len() - i,
    {
        let a = &attrs[i];
        match a {
            Some(v) => {
                let ghost prev = towns.deep_view();
                towns.push(sanitize_str(v.as_str()));
                proof {
                    assert(ga[i as int] == attrs@[i as int].deep_view());
                    assert(ga[i as int] == Some(v@));
                    assert forall|j: int| 0 <= j < i + 1 implies #[trigger] towns.deep_view()[j]
                        == spec_sanitize(ga[j]->Some_0) by {
                        assert(towns.deep_view()[j] == towns@[j].deep_view());
                        if j < i {
                            assert(towns@[j] =~= towns@.take(i as int)[j]);
                            assert(towns.deep_view()[j] == prev[j]);
                        }
                    }
                }
            },
            None => {
                proof {
                    assert(ga[i as int] == attrs@[i as int].deep_view());
                    assert(ga[i as int] is None);
                    assert(spec_some_attr_missing(ga));
                }
                return Err(TibiaError::UnexpectedPageContent);
            },
        }
        i += 1;
    }
    proof {
        assert(!spec_some_attr_missing(ga));
        assert(towns.deep_view() =~= spec_towns_of(ga));
    }
    Ok(towns)
}

} // verus!
