//! The kill statistics extractor: the page's data cells come in fixed
//! five-tuples of (race or "Total" label, players killed last day, killed
//! by players last day, players killed last week, killed by players last
//! week). The "Total" row fills the aggregate fields and never appears in
//! the per-race list.

use vstd::prelude::*;

use crate::classify::is_maintenance_page;
use crate::classify::spec_is_maintenance_page;
use crate::dom::select_cells;
use crate::dom::spec_select_cells;
use crate::error::TibiaError;
use crate::models::KillStatistics;
use crate::models::KillStatisticsView;
use crate::models::KilledAmounts;
use crate::models::RaceKillStatistics;
use crate::models::RaceKillStatisticsView;
use crate::num::parse_u32_str;
use crate::num::spec_parse_u32;
use crate::text::str_eq;

verus! {

/// Walk the data cells in five-tuples from index `k`, with the aggregates
/// and per-race entries collected so far. A short trailing group is
/// ignored; a number that does not parse fails the whole walk; a later
/// "Total" row overwrites an earlier one.
pub open spec fn spec_kill_fold(
    cells: Seq<(Seq<char>, Seq<Seq<char>>)>,
    k: int,
    day: KilledAmounts,
    week: KilledAmounts,
    races: Seq<RaceKillStatisticsView>,
) -> Option<(KilledAmounts, KilledAmounts, Seq<RaceKillStatisticsView>)>
    decreases cells.len() - k when 0 <= k <= cells.len()
{
    if k + 5 > cells.len() {
        Some((day, week, races))
    } else {
        let kp_day = spec_parse_u32(cells[k + 1].0);
        let kbp_day = spec_parse_u32(cells[k + 2].0);
        let kp_week = spec_parse_u32(cells[k + 3].0);
        let kbp_week = spec_parse_u32(cells[k + 4].0);
        if kp_day is None || kbp_day is None || kp_week is None || kbp_week is None {
            None
        } else {
            let d = KilledAmounts {
                killed_players: kp_day->Some_0,
                killed_by_players: kbp_day->Some_0,
            };
            let w = KilledAmounts {
                killed_players: kp_week->Some_0,
                killed_by_players: kbp_week->Some_0,
            };
            if cells[k].0 == "Total"@ {
                spec_kill_fold(cells, k + 5, d, w, races)
            } else {
                spec_kill_fold(
                    cells,
                    k + 5,
                    day,
                    week,
                    races.push(
                        RaceKillStatisticsView { race: cells[k].0, last_day: d, last_week: w },
                    ),
                )
            }
        }
    }
}

/// What kill-statistics extraction yields: the maintenance sentinel wins; a
/// page without the main content block has drifted; a page with no data
/// cells is the not-found shape; otherwise the five-tuple walk from the
/// start, beginning with zeroed aggregates.
pub open spec fn spec_parse_killstatistics_page(page: Seq<char>) -> Result<
    Option<KillStatisticsView>,
    TibiaError,
> {
    if spec_is_maintenance_page(page) {
        Err(TibiaError::Maintenance)
    } else {
        let mc = spec_select_cells(page, ".main-content"@);
        if mc is None || mc->Some_0.len() == 0 {
            Err(TibiaError::UnexpectedPageContent)
        } else {
            let cells = spec_select_cells(page, ".main-content #KillStatisticsTable tr.DataRow > td"@);
            if cells is None {
                Err(TibiaError::UnexpectedPageContent)
            } else if cells->Some_0.len() == 0 {
                Ok(None)
            } else {
                let zero = KilledAmounts { killed_players: 0, killed_by_players: 0 };
                match spec_kill_fold(cells->Some_0, 0, zero, zero, Seq::empty()) {
                    None => Err(TibiaError::UnexpectedPageContent),
                    Some((day, week, races)) => Ok(
                        Some(
                            KillStatisticsView {
                                total_last_day: day,
                                total_last_week: week,
                                races,
                            },
                        ),
                    ),
                }
            }
        }
    }
}

/// Extract a world's kill statistics; `Ok(None)` is the not-found shape
/// (no data cells at all).
#[verifier::loop_isolation(false)]
pub fn parse_killstatistics_page(page: &str) -> (r: Result<Option<KillStatistics>, TibiaError>)
    ensures
        match r {
            Ok(Some(ks)) => spec_parse_killstatistics_page(page@) == Ok::<_, TibiaError>(
                Some(ks@),
            ),
            Ok(None) => spec_parse_killstatistics_page(page@) == Ok::<
                Option<KillStatisticsView>,
                TibiaError,
            >(None),
            Err(e) => spec_parse_killstatistics_page(page@) == Err::<
                Option<KillStatisticsView>,
                TibiaError,
            >(e),
        },
{
    if is_maintenance_page(page) {
        return Err(TibiaError::Maintenance);
    }
    let mc = match select_cells(page, ".main-content") {
        Some(t) => t,
        None => {
            return Err(TibiaError::UnexpectedPageContent);
        },
    };
    if mc.len() == 0 {
        return Err(TibiaError::UnexpectedPageContent);
    }
    let cells = match select_cells(page, ".main-content #KillStatisticsTable tr.DataRow > td") {
        Some(c) => c,
        None => {
            return Err(TibiaError::UnexpectedPageContent);
        },
    };
    if cells.len() == 0 {
        return Ok(None);
    }
    let ghost gc = cells.deep_view();
    let zero = KilledAmounts { killed_players: 0, killed_by_players: 0 };
    let mut day = zero;
    let mut week = zero;
    let mut races: Vec<RaceKillStatistics> = Vec::new();
    let mut k: usize = 0;
    proof {
        assert(races.deep_view() =~= Seq::<RaceKillStatisticsView>::empty());
    }
    while k < cells.len() && cells.len() - k >= 5
        invariant
            k <= gc.len(),
            spec_kill_fold(gc, 0, zero, zero, Seq::empty()) == spec_kill_fold(
                gc,
                k as int,
                day,
                week,
                races.deep_view(),
            ),
        decreases gc.len() - k,
    {
        proof {
            assert(gc[k as int] == cells@[k as int].deep_view());
            assert(gc[k + 1] == cells@[k + 1].deep_view());
            assert(gc[k + 2] == cells@[k + 2].deep_view());
            assert(gc[k + 3] == cells@[k + 3].deep_view());
            assert(gc[k + 4] == cells@[k + 4].deep_view());
        }
        let kp_day = parse_u32_str(cells[k + 1].0.as_str());
        let kbp_day = parse_u32_str(cells[k + 2].0.as_str());
        let kp_week = parse_u32_str(cells[k + 3].0.as_str());
        let kbp_week = parse_u32_str(cells[k + 4].0.as_str());
        if kp_day.is_none() || kbp_day.is_none() || kp_week.is_none() || kbp_week.is_none() {
            return Err(TibiaError::UnexpectedPageContent);
        }
        let d = KilledAmounts {
            killed_players: kp_day.unwrap(),
            killed_by_players: kbp_day.unwrap(),
        };
        let w = KilledAmounts {
            killed_players: kp_week.unwrap(),
            killed_by_players: kbp_week.unwrap(),
        };
        if str_eq(cells[k].0.as_str(), "Total") {
            day = d;
            week = w;
        } else {
            let ghost prev = races.deep_view();
            races.push(
                RaceKillStatistics { race: cells[k].0.clone(), last_day: d, last_week: w },
            );
            proof {
                assert(races.deep_view() =~= prev.push(
                    RaceKillStatisticsView { race: gc[k as int].0, last_day: d, last_week: w },
                ));
            }
        }
        k += 5;
    }
    proof {
        assert(spec_kill_fold(gc, k as int, day, week, races.deep_view()) == Some(
            (day, week, races.deep_view()),
        ));
    }
    Ok(Some(KillStatistics { total_last_day: day, total_last_week: week, races }))
}

/// The synthetic "Total" label never appears among the per-race entries of
/// a successfully walked cell list, whatever was already collected without
/// it.
pub proof fn lemma_kill_fold_total_absent(
    cells: Seq<(Seq<char>, Seq<Seq<char>>)>,
    k: int,
    day: KilledAmounts,
    week: KilledAmounts,
    races: Seq<RaceKillStatisticsView>,
)
    requires
        0 <= k <= cells.len(),
        forall|i: int| 0 <= i < races.len() ==> (#[trigger] races[i]).race != "Total"@,
    ensures
        spec_kill_fold(cells, k, day, week, races) matches Some(out) ==> forall|i: int|
            0 <= i < out.2.len() ==> (#[trigger] out.2[i]).race != "Total"@,
    decreases cells.len() - k,
{
    if k + 5 > cells.len() {
    } else {
        let kp_day = spec_parse_u32(cells[k + 1].0);
        let kbp_day = spec_parse_u32(cells[k + 2].0);
        let kp_week = spec_parse_u32(cells[k + 3].0);
        let kbp_week = spec_parse_u32(cells[k + 4].0);
        if kp_day is None || kbp_day is None || kp_week is None || kbp_week is None {
        } else {
            let d = KilledAmounts {
                killed_players: kp_day->Some_0,
                killed_by_players: kbp_day->Some_0,
            };
            let w = KilledAmounts {
                killed_players: kp_week->Some_0,
                killed_by_players: kbp_week->Some_0,
            };
            if cells[k].0 == "Total"@ {
                lemma_kill_fold_total_absent(cells, k + 5, d, w, races);
            } else {
                let pushed = races.push(
                    RaceKillStatisticsView { race: cells[k].0, last_day: d, last_week: w },
                );
                assert(forall|i: int|
                    0 <= i < pushed.len() ==> (#[trigger] pushed[i]).race != "Total"@);
                lemma_kill_fold_total_absent(cells, k + 5, day, week, pushed);
            }
        }
    }
}

/// In any extracted kill statistics, the "Total" row has been split into
/// the aggregate fields: no per-race entry is labelled "Total".
pub proof fn lemma_total_absent_from_races(page: Seq<char>)
    ensures
        spec_parse_killstatistics_page(page) matches Ok(Some(ks)) ==> forall|i: int|
            0 <= i < ks.races.len() ==> (#[trigger] ks.races[i]).race != "Total"@,
{
    if spec_parse_killstatistics_page(page) matches Ok(Some(ks)) {
        let cells = spec_select_cells(page, ".main-content #KillStatisticsTable tr.DataRow > td"@);
        let zero = KilledAmounts { killed_players: 0, killed_by_players: 0 };
        lemma_kill_fold_total_absent(cells->Some_0, 0, zero, zero, Seq::empty());
    }
}

} // verus!
