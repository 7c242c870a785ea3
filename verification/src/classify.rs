//! The site-wide sentinel check that precedes every extraction: a page
//! whose title is exactly the maintenance title is the maintenance page.

use vstd::prelude::*;

use crate::dom::page_title;
use crate::dom::spec_page_title;
use crate::text::str_eq;

verus! {

/// The exact title of the upstream maintenance page.
pub open spec fn spec_maintenance_title() -> Seq<char> {
    "Tibia - Free Multiplayer Online Role Playing Game - Maintenance"@
}

/// Whether the page is the site-wide maintenance sentinel.
pub open spec fn spec_is_maintenance_page(page: Seq<char>) -> bool {
    spec_page_title(page) == Some(spec_maintenance_title())
}

pub fn is_maintenance_page(page: &str) -> (r: bool)
    ensures
        r == spec_is_maintenance_page(page@),
{
    match page_title(page) {
        Some(t) => str_eq(
            t.as_str(),
            "Tibia - Free Multiplayer Online Role Playing Game - Maintenance",
        ),
        None => false,
    }
}

} // verus!
