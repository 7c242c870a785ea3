//! The worlds overview extractor: a record-statistics block ("<n> players
//! (on <date>)") followed by a table of world rows in fixed six-cell
//! tuples. The total of players online is derived by summing the rows, not
//! read from the page.

use vstd::prelude::*;

use crate::classify::is_maintenance_page;
use crate::classify::spec_is_maintenance_page;
use crate::dom::select_cells;
use crate::dom::select_in_nth_attrs;
use crate::dom::select_in_nth_cells;
use crate::dom::spec_select_cells;
use crate::dom::spec_select_in_nth_attrs;
use crate::dom::spec_select_in_nth_cells;
use crate::error::TibiaError;
use crate::models::GameWorldType;
use crate::models::Location;
use crate::models::PvpType;
use crate::models::TransferType;
use crate::models::World;
use crate::models::WorldView;
use crate::models::WorldsResponse;
use crate::models::WorldsResponseView;
use crate::num::parse_u32_numsep_range;
use crate::num::numsep_run_start;
use crate::num::spec_numsep_run_start;
use crate::num::spec_parse_u32;
use crate::num::spec_strip_commas;
use crate::num::strip_commas_range;
use crate::num::parse_u32_range;
use crate::sanitize::sanitize_chars;
use crate::sanitize::spec_sanitize;
use crate::text::contains_sub;
use crate::text::find_from;
use crate::text::spec_contains;
use crate::text::spec_find;
use crate::text::spec_trim;
use crate::text::sub_chars;
use crate::text::to_chars;
use crate::text::trim_chars;
use crate::time::CalendarDate;
use crate::timeparse::parse_cet_datetime;
use crate::timeparse::parse_month_day_year;
use crate::timeparse::spec_parse_cet_datetime;
use crate::timeparse::spec_parse_month_day_year;

verus! {

/// Rule for a BattlEye indicator text: a tooltip naming the client's
/// release means enabled since the beginning; "since <date>." means
/// enabled from that date; anything else, or no tooltip at all, means
/// disabled. `None` is a date that would not parse.
pub open spec fn spec_battl_eye_of(tip: Option<Seq<char>>) -> Option<(bool, Option<CalendarDate>)> {
    match tip {
        None => Some((false, None)),
        Some(s) => {
            if spec_contains(s, "release"@) {
                Some((true, None))
            } else {
                match spec_find(s, "since "@, 0) {
                    None => Some((false, None)),
                    Some(i) => {
                        match spec_find(s, "."@, i + 6) {
                            None => Some((false, None)),
                            Some(e) => {
                                match spec_parse_month_day_year(s.subrange(i + 6, e)) {
                                    None => None,
                                    Some(d) => Some((true, Some(d))),
                                }
                            },
                        }
                    },
                }
            }
        },
    }
}

/// Classify one BattlEye indicator text.
pub fn battl_eye_of(tip: &Option<String>) -> (r: Option<(bool, Option<CalendarDate>)>)
    ensures
        r == spec_battl_eye_of(tip.deep_view()),
        r matches Some(p) ==> (p.1 is Some ==> p.0),
{
    match tip {
        None => Some((false, None)),
        Some(s) => {
            proof {
                reveal_strlit("release");
                reveal_strlit("since ");
                reveal_strlit(".");
            }
            let cs = to_chars(s.as_str());
            let n: usize = cs.len();
            assert(n == cs@.len());
            if contains_sub(&cs, &to_chars("release")) {
                return Some((true, None));
            }
            match find_from(&cs, &to_chars("since "), 0) {
                None => Some((false, None)),
                Some(i) => {
                    match find_from(&cs, &to_chars("."), i + 6) {
                        None => Some((false, None)),
                        Some(e) => {
                            let sub = sub_chars(&cs, i + 6, e);
                            match parse_month_day_year(&sub) {
                                None => None,
                                Some(d) => Some((true, Some(d))),
                            }
                        },
                    }
                },
            }
        },
    }
}

/// One world row at global data-row index `g`: six cells in order — name
/// (as the first anchor of the first cell), players online, location, pvp
/// type, the BattlEye indicator, and the free-text additional information
/// whose markers decide the game world type, premium requirement and
/// transfer restriction.
pub open spec fn spec_world_row(page: Seq<char>, g: int) -> Option<WorldView> {
    let cells = spec_select_in_nth_cells(
        page,
        ".main-content .TableContent tr.Odd, .main-content .TableContent tr.Even"@,
        g,
        "td"@,
    );
    let anchors = spec_select_in_nth_cells(
        page,
        ".main-content .TableContent tr.Odd, .main-content .TableContent tr.Even"@,
        g,
        "td:first-child a"@,
    );
    let tips = spec_select_in_nth_attrs(
        page,
        ".main-content .TableContent tr.Odd, .main-content .TableContent tr.Even"@,
        g,
        ".HelperDivIndicator"@,
        "onmouseover"@,
    );
    if cells is None || anchors is None || tips is None {
        None
    } else if cells->Some_0.len() != 6 || anchors->Some_0.len() < 1 {
        None
    } else {
        let count = spec_parse_u32(spec_strip_commas(cells->Some_0[1].0));
        let loc = Location::spec_from_str(cells->Some_0[2].0);
        let pvp = PvpType::spec_from_str(cells->Some_0[3].0);
        let tip = if tips->Some_0.len() >= 1 {
            tips->Some_0[0]
        } else {
            None
        };
        let be = spec_battl_eye_of(tip);
        if count is None || loc is None || pvp is None || be is None {
            None
        } else {
            let info = cells->Some_0[5].0;
            Some(
                WorldView {
                    name: anchors->Some_0[0].0,
                    players_online_count: count->Some_0,
                    location: loc->Some_0,
                    pvp_type: pvp->Some_0,
                    battl_eye: be->Some_0.0,
                    battl_eye_date: be->Some_0.1,
                    premium_required: spec_contains(info, "premium"@),
                    transfer_type: if spec_contains(info, "blocked"@) {
                        Some(TransferType::Blocked)
                    } else if spec_contains(info, "locked"@) {
                        Some(TransferType::Locked)
                    } else {
                        None
                    },
                    game_world_type: if spec_contains(info, "experimental"@) {
                        GameWorldType::Experimental
                    } else {
                        GameWorldType::Regular
                    },
                },
            )
        }
    }
}

/// Walk the world rows `offset + j` for `j` up to `total`.
pub open spec fn spec_world_rows(
    page: Seq<char>,
    j: int,
    total: int,
    offset: int,
    acc: Seq<WorldView>,
) -> Option<Seq<WorldView>>
    decreases total - j when 0 <= j <= total
{
    if j >= total {
        Some(acc)
    } else {
        match spec_world_row(page, offset + j) {
            None => None,
            Some(w) => spec_world_rows(page, j + 1, total, offset, acc.push(w)),
        }
    }
}

/// The sum of the rows' online counts.
pub open spec fn spec_sum_counts(ws: Seq<WorldView>) -> int
    decreases ws.len(),
{
    if ws.len() == 0 {
        0
    } else {
        spec_sum_counts(ws.drop_last()) + ws.last().players_online_count
    }
}

/// A prefix of the rows never sums to more than all of them.
pub proof fn lemma_sum_counts_mono(ws: Seq<WorldView>, k: int)
    requires
        0 <= k <= ws.len(),
    ensures
        spec_sum_counts(ws.take(k)) <= spec_sum_counts(ws),
    decreases ws.len() - k,
{
    if k < ws.len() {
        lemma_sum_counts_mono(ws, k + 1);
        assert(ws.take(k + 1).drop_last() =~= ws.take(k));
        assert(ws.take(k + 1).last().players_online_count >= 0);
    } else {
        assert(ws.take(k) =~= ws);
    }
}

/// What worlds extraction yields: the maintenance sentinel wins; then the
/// record count and record date parsed from the first listing block per
/// the "<n> players (on <date>)" shape with rule-A date handling; then one
/// world per data row of the third listing block; and the derived total.
pub open spec fn spec_parse_worlds_page(page: Seq<char>) -> Result<WorldsResponseView, TibiaError> {
    if spec_is_maintenance_page(page) {
        Err(TibiaError::Maintenance)
    } else {
        let mc = spec_select_cells(page, ".main-content"@);
        let tables = spec_select_cells(page, ".main-content .TableContent"@);
        if mc is None || mc->Some_0.len() == 0 || tables is None || tables->Some_0.len() < 3 {
            Err(TibiaError::UnexpectedPageContent)
        } else {
            let rh = spec_sanitize(tables->Some_0[0].0);
            let don = spec_find(rh, "(on "@, 0);
            if don is None {
                Err(TibiaError::UnexpectedPageContent)
            } else {
                let dend = spec_find(rh, ")"@, don->Some_0 + 4);
                if dend is None {
                    Err(TibiaError::UnexpectedPageContent)
                } else {
                    let dt = spec_parse_cet_datetime(
                        spec_trim(rh.subrange(don->Some_0 + 4, dend->Some_0)),
                    );
                    let pl = spec_find(rh, " players"@, 0);
                    if dt is None || pl is None {
                        Err(TibiaError::UnexpectedPageContent)
                    } else {
                        let b = spec_numsep_run_start(rh, pl->Some_0);
                        let rp = spec_parse_u32(
                            spec_strip_commas(rh.subrange(b, pl->Some_0)),
                        );
                        let rows0 = spec_select_in_nth_cells(
                            page,
                            ".main-content .TableContent"@,
                            0,
                            "tr.Odd, tr.Even"@,
                        );
                        let rows1 = spec_select_in_nth_cells(
                            page,
                            ".main-content .TableContent"@,
                            1,
                            "tr.Odd, tr.Even"@,
                        );
                        let rows2 = spec_select_in_nth_cells(
                            page,
                            ".main-content .TableContent"@,
                            2,
                            "tr.Odd, tr.Even"@,
                        );
                        if rp is None || rows0 is None || rows1 is None || rows2 is None {
                            Err(TibiaError::UnexpectedPageContent)
                        } else {
                            let offset = rows0->Some_0.len() + rows1->Some_0.len();
                            let total = rows2->Some_0.len() as int;
                            if offset + total > usize::MAX {
                                Err(TibiaError::UnexpectedPageContent)
                            } else {
                                match spec_world_rows(page, 0, total, offset as int, Seq::empty()) {
                                    None => Err(TibiaError::UnexpectedPageContent),
                                    Some(ws) => {
                                        if spec_sum_counts(ws) > u32::MAX {
                                            Err(TibiaError::UnexpectedPageContent)
                                        } else {
                                            Ok(
                                                WorldsResponseView {
                                                    players_online_total: spec_sum_counts(
                                                        ws,
                                                    ) as u32,
                                                    record_players: rp->Some_0,
                                                    record_date: dt->Some_0,
                                                    worlds: ws,
                                                },
                                            )
                                        }
                                    },
                                }
                            }
                        }
                    }
                }
            }
        }
    }
}

/// A BattlEye enablement date is only ever produced together with the
/// enabled flag.
pub proof fn lemma_battl_eye_date_implies_enabled(tip: Option<Seq<char>>)
    ensures
        spec_battl_eye_of(tip) matches Some(p) ==> (p.1 is Some ==> p.0),
{
}

proof fn lemma_world_rows_wf(
    page: Seq<char>,
    j: int,
    total: int,
    offset: int,
    acc: Seq<WorldView>,
)
    requires
        0 <= j <= total,
        forall|i: int|
            0 <= i < acc.len() ==> ((#[trigger] acc[i]).battl_eye_date is Some
                ==> acc[i].battl_eye),
    ensures
        spec_world_rows(page, j, total, offset, acc) matches Some(ws) ==> forall|i: int|
            0 <= i < ws.len() ==> ((#[trigger] ws[i]).battl_eye_date is Some ==> ws[i].battl_eye),
    decreases total - j,
{
    if j >= total {
    } else {
        match spec_world_row(page, offset + j) {
            None => {},
            Some(w) => {
                assert(w.battl_eye_date is Some ==> w.battl_eye) by {
                    let tips = spec_select_in_nth_attrs(
                        page,
                        ".main-content .TableContent tr.Odd, .main-content .TableContent tr.Even"@,
                        offset + j,
                        ".HelperDivIndicator"@,
                        "onmouseover"@,
                    );
                    if tips is Some {
                        let tip = if tips->Some_0.len() >= 1 {
                            tips->Some_0[0]
                        } else {
                            None
                        };
                        lemma_battl_eye_date_implies_enabled(tip);
                    }
                };
                let pushed = acc.push(w);
                assert(forall|i: int|
                    0 <= i < pushed.len() ==> ((#[trigger] pushed[i]).battl_eye_date is Some
                        ==> pushed[i].battl_eye));
                lemma_world_rows_wf(page, j + 1, total, offset, pushed);
            },
        }
    }
}

/// In any extracted worlds overview, a world that carries a BattlEye
/// enablement date has BattlEye enabled.
pub proof fn lemma_worlds_battl_eye_invariant(page: Seq<char>)
    ensures
        spec_parse_worlds_page(page) matches Ok(w) ==> forall|i: int|
            0 <= i < w.worlds.len() ==> ((#[trigger] w.worlds[i]).battl_eye_date is Some
                ==> w.worlds[i].battl_eye),
{
    if spec_parse_worlds_page(page) matches Ok(w) {
        let rows0 = spec_select_in_nth_cells(page, ".main-content .TableContent"@, 0, "tr.Odd, tr.Even"@);
        let rows1 = spec_select_in_nth_cells(page, ".main-content .TableContent"@, 1, "tr.Odd, tr.Even"@);
        let rows2 = spec_select_in_nth_cells(page, ".main-content .TableContent"@, 2, "tr.Odd, tr.Even"@);
        let offset = rows0->Some_0.len() + rows1->Some_0.len();
        let total = rows2->Some_0.len() as int;
        lemma_world_rows_wf(page, 0, total, offset as int, Seq::empty());
    }
}

/// Extract the worlds overview.
#[verifier::loop_isolation(false)]
pub fn parse_worlds_page(page: &str) -> (r: Result<WorldsResponse, TibiaError>)
    ensures
        match r {
            Ok(w) => spec_parse_worlds_page(page@) == Ok::<_, TibiaError>(w@),
            Err(e) => spec_parse_worlds_page(page@) == Err::<WorldsResponseView, _>(e),
        },
{
    proof {
        reveal_strlit("(on ");
        reveal_strlit(")");
        reveal_strlit(" players");
        reveal_strlit("premium");
        reveal_strlit("blocked");
        reveal_strlit("locked");
        reveal_strlit("experimental");
    }
    if is_maintenance_page(page) {
        return Err(TibiaError::Maintenance);
    }
    let mc = match select_cells(page, ".main-content") {
        Some(t) => t,
        None => {
            return Err(TibiaError::UnexpectedPageContent);
        },
    };
    let tables = match select_cells(page, ".main-content .TableContent") {
        Some(t) => t,
        None => {
            return Err(TibiaError::UnexpectedPageContent);
        },
    };
    if mc.len() == 0 || tables.len() < 3 {
        return Err(TibiaError::UnexpectedPageContent);
    }
    proof {
        assert(tables.deep_view()[0] == tables@[0].deep_view());
    }
    let rh0 = to_chars(tables[0].0.as_str());
    let rh = sanitize_chars(&rh0);
    let rhn: usize = rh.len();
    assert(rhn == rh@.len());
    let don: usize = match find_from(&rh, &to_chars("(on "), 0) {
        Some(i) => i,
        None => {
            return Err(TibiaError::UnexpectedPageContent);
        },
    };
    let dend: usize = match find_from(&rh, &to_chars(")"), don + 4) {
        Some(e) => e,
        None => {
            return Err(TibiaError::UnexpectedPageContent);
        },
    };
    let dsub = sub_chars(&rh, don + 4, dend);
    let dtrim = trim_chars(&dsub);
    let dt = match parse_cet_datetime(&dtrim) {
        Some(d) => d,
        None => {
            return Err(TibiaError::UnexpectedPageContent);
        },
    };
    let pl: usize = match find_from(&rh, &to_chars(" players"), 0) {
        Some(i) => i,
        None => {
            return Err(TibiaError::UnexpectedPageContent);
        },
    };
    let b: usize = numsep_run_start(&rh, pl);
    let rp: u32 = match parse_u32_numsep_range(&rh, b, pl) {
        Some(v) => v,
        None => {
            return Err(TibiaError::UnexpectedPageContent);
        },
    };
    let rows0 = match select_in_nth_cells(page, ".main-content .TableContent", 0, "tr.Odd, tr.Even")
        {
        Some(t) => t,
        None => {
            return Err(TibiaError::UnexpectedPageContent);
        },
    };
    let rows1 = match select_in_nth_cells(page, ".main-content .TableContent", 1, "tr.Odd, tr.Even")
        {
        Some(t) => t,
        None => {
            return Err(TibiaError::UnexpectedPageContent);
        },
    };
    let rows2 = match select_in_nth_cells(page, ".main-content .TableContent", 2, "tr.Odd, tr.Even")
        {
        Some(t) => t,
        None => {
            return Err(TibiaError::UnexpectedPageContent);
        },
    };
    if rows0.len() > usize::MAX - rows1.len() {
        return Err(TibiaError::UnexpectedPageContent);
    }
    let offset: usize = rows0.len() + rows1.len();
    let total: usize = rows2.len();
    if offset > usize::MAX - total {
        return Err(TibiaError::UnexpectedPageContent);
    }
    let mut worlds: Vec<World> = Vec::new();
    let mut j: usize = 0;
    proof {
        assert(worlds.deep_view() =~= Seq::<WorldView>::empty());
    }
    while j < total
        invariant
            j <= total,
            offset + total <= usize::MAX,
            spec_world_rows(page@, 0, total as int, offset as int, Seq::empty())
                == spec_world_rows(
                page@,
                j as int,
                total as int,
                offset as int,
                worlds.deep_view(),
            ),
        decreases total - j,
    {
        let g: usize = offset + j;
        let cells = match select_in_nth_cells(
            page,
            ".main-content .TableContent tr.Odd, .main-content .TableContent tr.Even",
            g,
            "td",
        ) {
            Some(c) => c,
            None => {
                return Err(TibiaError::UnexpectedPageContent);
            },
        };
        let anchors = match select_in_nth_cells(
            page,
            ".main-content .TableContent tr.Odd, .main-content .TableContent tr.Even",
            g,
            "td:first-child a",
        ) {
            Some(a) => a,
            None => {
                return Err(TibiaError::UnexpectedPageContent);
            },
        };
        let tips = match select_in_nth_attrs(
            page,
            ".main-content .TableContent tr.Odd, .main-content .TableContent tr.Even",
            g,
            ".HelperDivIndicator",
            "onmouseover",
        ) {
            Some(t) => t,
            None => {
                return Err(TibiaError::UnexpectedPageContent);
            },
        };
        if cells.len() != 6 || anchors.len() < 1 {
            return Err(TibiaError::UnexpectedPageContent);
        }
        proof {
            assert(cells.deep_view()[1] == cells@[1].deep_view());
            assert(cells.deep_view()[2] == cells@[2].deep_view());
            assert(cells.deep_view()[3] == cells@[3].deep_view());
            assert(cells.deep_view()[5] == cells@[5].deep_view());
            assert(anchors.deep_view()[0] == anchors@[0].deep_view());
            if tips@.len() >= 1 {
                assert(tips.deep_view()[0] == tips@[0].deep_view());
            }
        }
        let count_chars = to_chars(cells[1].0.as_str());
        let stripped = strip_commas_range(&count_chars, 0, count_chars.len());
        assert(count_chars@.subrange(0, count_chars@.len() as int) =~= count_chars@);
        assert(stripped@.subrange(0, stripped@.len() as int) =~= stripped@);
        let count = match parse_u32_range(&stripped, 0, stripped.len()) {
            Some(c) => c,
            None => {
                return Err(TibiaError::UnexpectedPageContent);
            },
        };
        let location = match Location::from_str(cells[2].0.as_str()) {
            Ok(l) => l,
            Err(e) => {
                return Err(e);
            },
        };
        let pvp_type = match PvpType::from_str(cells[3].0.as_str()) {
            Ok(p) => p,
            Err(e) => {
                return Err(e);
            },
        };
        let tip: Option<String> = if tips.len() >= 1 {
            match &tips[0] {
                Some(t) => Some(t.clone()),
                None => None,
            }
        } else {
            None
        };
        let be = match battl_eye_of(&tip) {
            Some(b) => b,
            None => {
                return Err(TibiaError::UnexpectedPageContent);
            },
        };
        let info_chars = to_chars(cells[5].0.as_str());
        let premium_required = contains_sub(&info_chars, &to_chars("premium"));
        let transfer_type: Option<TransferType> = if contains_sub(
            &info_chars,
            &to_chars("blocked"),
        ) {
            Some(TransferType::Blocked)
        } else if contains_sub(&info_chars, &to_chars("locked")) {
            Some(TransferType::Locked)
        } else {
            None
        };
        let game_world_type: GameWorldType = if contains_sub(
            &info_chars,
            &to_chars("experimental"),
        ) {
            GameWorldType::Experimental
        } else {
            GameWorldType::Regular
        };
        let ghost prev = worlds.deep_view();
        worlds.push(
            World {
                name: anchors[0].0.clone(),
                players_online_count: count,
                location,
                pvp_type,
                battl_eye: be.0,
                battl_eye_date: be.1,
                premium_required,
                transfer_type,
                game_world_type,
            },
        );
        proof {
            assert(spec_world_row(page@, g as int) matches Some(wv) && worlds.deep_view()
                =~= prev.push(wv));
        }
        j += 1;
    }
    let ghost gws = worlds.deep_view();
    let mut sum: u64 = 0;
    let mut i: usize = 0;
    proof {
        assert(gws.take(0) =~= Seq::<WorldView>::empty());
    }
    while i < worlds.len()
        invariant
            i <= worlds@.len(),
            gws == worlds.deep_view(),
            gws.len() == worlds@.len(),
            sum == spec_sum_counts(gws.take(i as int)),
            sum <= 0xFFFF_FFFF,
        decreases worlds@.len() - i,
    {
        proof {
            assert(gws[i as int] == worlds@[i as int].deep_view());
            assert(gws.take(i + 1).drop_last() =~= gws.take(i as int));
        }
        sum = sum + worlds[i].players_online_count as u64;
        i += 1;
        if sum > 0xFFFF_FFFF {
            proof {
                lemma_sum_counts_mono(gws, i as int);
            }
            return Err(TibiaError::UnexpectedPageContent);
        }
    }
    proof {
        assert(gws.take(gws.len() as int) =~= gws);
    }
    Ok(
        WorldsResponse {
            players_online_total: sum as u32,
            record_players: rp,
            record_date: dt,
            worlds,
        },
    )
}

} // verus!
