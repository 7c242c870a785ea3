//! The guilds extractor: the page carries exactly two listing tables —
//! fully founded guilds first, guilds still in formation second — and a row
//! count of anything but two tables is the not-found shape. Which table a
//! row came from decides the guild's `active` flag.

use vstd::prelude::*;

use crate::classify::is_maintenance_page;
use crate::classify::spec_is_maintenance_page;
use crate::dom::select_cells;
use crate::dom::select_in_nth_attrs;
use crate::dom::select_in_nth_cells;
use crate::dom::spec_select_cells;
use crate::dom::spec_select_in_nth_attrs;
use crate::dom::spec_select_in_nth_cells;
use crate::error::TibiaError;
use crate::models::Guild;
use crate::models::GuildView;

verus! {

/// One guild row: the first cell's image is the optional logo, the second
/// cell's first two text nodes are the name (required) and the optional
/// description.
pub open spec fn spec_guild_row(page: Seq<char>, g: int, active: bool) -> Option<GuildView> {
    let cells = spec_select_in_nth_cells(
        page,
        ".main-content .TableContainer table.TableContent tr:not(:first-child)"@,
        g,
        "td"@,
    );
    let imgs = spec_select_in_nth_attrs(
        page,
        ".main-content .TableContainer table.TableContent tr:not(:first-child)"@,
        g,
        "td:first-child img"@,
        "src"@,
    );
    if cells is None || imgs is None {
        None
    } else if cells->Some_0.len() < 2 || cells->Some_0[1].1.len() < 1 {
        None
    } else {
        let logo = if imgs->Some_0.len() >= 1 && imgs->Some_0[0] is Some {
            Some(imgs->Some_0[0]->Some_0)
        } else {
            None
        };
        let texts = cells->Some_0[1].1;
        let description = if texts.len() >= 2 {
            Some(texts[1])
        } else {
            None
        };
        Some(GuildView { logo, name: texts[0], description, active })
    }
}

/// Walk the guild rows from global row index `j` up to `total`; the first
/// `n0` rows belong to the table of founded guilds.
pub open spec fn spec_guild_rows(
    page: Seq<char>,
    j: int,
    total: int,
    n0: int,
    acc: Seq<GuildView>,
) -> Option<Seq<GuildView>>
    decreases total - j when 0 <= j <= total
{
    if j >= total {
        Some(acc)
    } else {
        match spec_guild_row(page, j, j < n0) {
            None => None,
            Some(gv) => spec_guild_rows(page, j + 1, total, n0, acc.push(gv)),
        }
    }
}

/// What guild extraction yields: the maintenance sentinel wins; a missing
/// main content block has drifted; any table count but two is the
/// not-found shape; otherwise every data row of both tables, founded
/// guilds first, in page order.
pub open spec fn spec_parse_guilds_page(page: Seq<char>) -> Result<Seq<GuildView>, TibiaError> {
    if spec_is_maintenance_page(page) {
        Err(TibiaError::Maintenance)
    } else {
        let mc = spec_select_cells(page, ".main-content"@);
        if mc is None || mc->Some_0.len() == 0 {
            Err(TibiaError::UnexpectedPageContent)
        } else {
            let tables = spec_select_cells(page, ".main-content .TableContainer table.TableContent"@);
            if tables is None {
                Err(TibiaError::UnexpectedPageContent)
            } else if tables->Some_0.len() != 2 {
                Err(TibiaError::NotFound)
            } else {
                let rows0 = spec_select_in_nth_cells(
                    page,
                    ".main-content .TableContainer table.TableContent"@,
                    0,
                    "tr:not(:first-child)"@,
                );
                let rows1 = spec_select_in_nth_cells(
                    page,
                    ".main-content .TableContainer table.TableContent"@,
                    1,
                    "tr:not(:first-child)"@,
                );
                if rows0 is None || rows1 is None {
                    Err(TibiaError::UnexpectedPageContent)
                } else {
                    let n0 = rows0->Some_0.len() as int;
                    let n1 = rows1->Some_0.len() as int;
                    if n0 + n1 > usize::MAX {
                        Err(TibiaError::UnexpectedPageContent)
                    } else {
                        match spec_guild_rows(page, 0, n0 + n1, n0, Seq::empty()) {
                            None => Err(TibiaError::UnexpectedPageContent),
                            Some(gs) => Ok(gs),
                        }
                    }
                }
            }
        }
    }
}

/// Extract a world's guilds, founded guilds before guilds in formation.
#[verifier::loop_isolation(false)]
pub fn parse_guilds_page(page: &str) -> (r: Result<Vec<Guild>, TibiaError>)
    ensures
        match r {
            Ok(v) => spec_parse_guilds_page(page@) == Ok::<_, TibiaError>(v.deep_view()),
            Err(e) => spec_parse_guilds_page(page@) == Err::<Seq<GuildView>, _>(e),
        },
{
    if is_maintenance_page(page) {
        return Err(TibiaError::Maintenance);
    }
    let mc = match select_cells(page, ".main-content") {
        Some(t) => t,
        None => {
            return Err(TibiaError::UnexpectedPageContent);
        },
    };
    if mc.len() == 0 {
        return Err(TibiaError::UnexpectedPageContent);
    }
    let tables = match select_cells(page, ".main-content .TableContainer table.TableContent") {
        Some(t) => t,
        None => {
            return Err(TibiaError::UnexpectedPageContent);
        },
    };
    if tables.len() != 2 {
        return Err(TibiaError::NotFound);
    }
    let rows0 = match select_in_nth_cells(
        page,
        ".main-content .TableContainer table.TableContent",
        0,
        "tr:not(:first-child)",
    ) {
        Some(t) => t,
        None => {
            return Err(TibiaError::UnexpectedPageContent);
        },
    };
    let rows1 = match select_in_nth_cells(
        page,
        ".main-content .TableContainer table.TableContent",
        1,
        "tr:not(:first-child)",
    ) {
        Some(t) => t,
        None => {
            return Err(TibiaError::UnexpectedPageContent);
        },
    };
    let n0: usize = rows0.len();
    let n1: usize = rows1.len();
    if n0 > usize::MAX - n1 {
        return Err(TibiaError::UnexpectedPageContent);
    }
    let total: usize = n0 + n1;
    let mut guilds: Vec<Guild> = Vec::new();
    let mut j: usize = 0;
    proof {
        assert(guilds.deep_view() =~= Seq::<GuildView>::empty());
    }
    while j < total
        invariant
            j <= total,
            spec_guild_rows(page@, 0, total as int, n0 as int, Seq::empty()) == spec_guild_rows(
                page@,
                j as int,
                total as int,
                n0 as int,
                guilds.deep_view(),
            ),
        decreases total - j,
    {
        let cells = match select_in_nth_cells(
            page,
            ".main-content .TableContainer table.TableContent tr:not(:first-child)",
            j,
            "td",
        ) {
            Some(c) => c,
            None => {
                return Err(TibiaError::UnexpectedPageContent);
            },
        };
        let imgs = match select_in_nth_attrs(
            page,
            ".main-content .TableContainer table.TableContent tr:not(:first-child)",
            j,
            "td:first-child img",
            "src",
        ) {
            Some(a) => a,
            None => {
                return Err(TibiaError::UnexpectedPageContent);
            },
        };
        proof {
            if cells@.len() >= 2 {
                assert(cells.deep_view()[1] == cells@[1].deep_view());
            }
            if imgs@.len() >= 1 {
                assert(imgs.deep_view()[0] == imgs@[0].deep_view());
            }
        }
        if cells.len() < 2 || cells[1].1.len() < 1 {
            return Err(TibiaError::UnexpectedPageContent);
        }
        let logo: Option<String> = if imgs.len() >= 1 {
            match &imgs[0] {
                Some(src) => Some(src.clone()),
                None => None,
            }
        } else {
            None
        };
        let name: String = cells[1].1[0].clone();
        let description: Option<String> = if cells[1].1.len() >= 2 {
            Some(cells[1].1[1].clone())
        } else {
            None
        };
        let active: bool = j < n0;
        let ghost prev = guilds.deep_view();
        let ghost texts = cells.deep_view()[1].1;
        proof {
            assert(cells.deep_view()[1].1 == cells@[1].deep_view().1);
            assert(cells@[1].deep_view().1 == cells@[1].1.deep_view());
            assert(texts[0] == cells@[1].1@[0].deep_view());
            if cells@[1].1@.len() >= 2 {
                assert(texts[1] == cells@[1].1@[1].deep_view());
            }
        }
        guilds.push(Guild { logo, name, description, active });
        proof {
            assert(guilds.deep_view() =~= prev.push(spec_guild_row(page@, j as int, active)->Some_0));
        }
        j += 1;
    }
    Ok(guilds)
}

} // verus!
