//! The world-details extractor: a page with a lone inner table container is
//! the unknown-world shape; otherwise the second container holds the
//! information table, read as header/value cell pairs over a closed header
//! vocabulary (an unrecognized header fails loudly), and — only when players
//! are online — the third container holds the online players in fixed
//! three-cell tuples.

use vstd::prelude::*;

use crate::classify::is_maintenance_page;
use crate::classify::spec_is_maintenance_page;
use crate::dom::select_cells;
use crate::dom::select_in_nth_cells;
use crate::dom::spec_select_cells;
use crate::dom::spec_select_in_nth_cells;
use crate::error::TibiaError;
use crate::models::GameWorldType;
use crate::models::Location;
use crate::models::Player;
use crate::models::PlayerView;
use crate::models::PvpType;
use crate::models::TransferType;
use crate::models::Vocation;
use crate::models::WorldDetails;
use crate::models::WorldDetailsView;
use crate::num::numsep_run_start;
use crate::num::parse_u32_numsep_range;
use crate::num::parse_u32_str;
use crate::num::spec_numsep_run_start;
use crate::num::spec_parse_u32;
use crate::num::spec_strip_commas;
use crate::sanitize::sanitize_chars;
use crate::sanitize::sanitize_str;
use crate::sanitize::spec_sanitize;
use crate::text::ascii_lower;
use crate::text::find_from;
use crate::text::spec_ascii_lower;
use crate::text::spec_find;
use crate::text::spec_trim;
use crate::text::string_from_chars;
use crate::text::str_eq;
use crate::text::sub_chars;
use crate::text::to_chars;
use crate::text::trim_chars;
use crate::time::CalendarDate;
use crate::time::UtcDateTime;
use crate::timeparse::chars_eq_str;
use crate::timeparse::parse_cet_datetime;
use crate::timeparse::parse_month_year;
use crate::timeparse::spec_parse_cet_datetime;
use crate::timeparse::spec_parse_month_year;
use crate::worlds::battl_eye_of;
use crate::worlds::spec_battl_eye_of;

verus! {

/// The record field text "<n> players (on <date>)": the numeric run just
/// before the " players" marker, and the parenthesized date per rule A.
pub open spec fn spec_record_of(rh: Seq<char>) -> Option<(u32, UtcDateTime)> {
    let pl = spec_find(rh, " players"@, 0);
    if pl is None {
        None
    } else {
        let b = spec_numsep_run_start(rh, pl->Some_0);
        let rp = spec_parse_u32(spec_strip_commas(rh.subrange(b, pl->Some_0)));
        let don = spec_find(rh, "(on "@, 0);
        if rp is None || don is None {
            None
        } else {
            let dend = spec_find(rh, ")"@, don->Some_0 + 4);
            if dend is None {
                None
            } else {
                match spec_parse_cet_datetime(
                    spec_trim(rh.subrange(don->Some_0 + 4, dend->Some_0)),
                ) {
                    None => None,
                    Some(dt) => Some((rp->Some_0, dt)),
                }
            }
        }
    }
}

pub fn record_of(rh: &Vec<char>) -> (r: Option<(u32, UtcDateTime)>)
    ensures
        r == spec_record_of(rh@),
{
    proof {
        reveal_strlit(" players");
        reveal_strlit("(on ");
        reveal_strlit(")");
    }
    let n: usize = rh.len();
    assert(n == rh@.len());
    let pl: usize = match find_from(rh, &to_chars(" players"), 0) {
        Some(i) => i,
        None => {
            return None;
        },
    };
    let b: usize = numsep_run_start(rh, pl);
    let rp = parse_u32_numsep_range(rh, b, pl);
    let don: usize = match find_from(rh, &to_chars("(on "), 0) {
        Some(i) => i,
        None => {
            return None;
        },
    };
    if rp.is_none() {
        return None;
    }
    let dend: usize = match find_from(rh, &to_chars(")"), don + 4) {
        Some(e) => e,
        None => {
            return None;
        },
    };
    let dsub = sub_chars(rh, don + 4, dend);
    let dtrim = trim_chars(&dsub);
    match parse_cet_datetime(&dtrim) {
        None => None,
        Some(dt) => Some((rp.unwrap(), dt)),
    }
}

/// The starting record before any header has been read: the requested name,
/// assumed online, zeroed counts, epoch-start dates, and the first entry of
/// each closed vocabulary.
pub open spec fn spec_details_init(name: Seq<char>) -> WorldDetailsView {
    WorldDetailsView {
        name: name,
        is_online: true,
        players_online_count: 0,
        players_online_record: 0,
        players_online_record_date: UtcDateTime {
            year: 1970,
            month: 1,
            day: 1,
            hour: 0,
            minute: 0,
            second: 0,
        },
        creation_date: CalendarDate { year: 1, month: 1, day: 1 },
        location: Location::Europe,
        pvp_type: PvpType::Open,
        world_quest_titles: Seq::empty(),
        battl_eye: false,
        battl_eye_date: None,
        game_world_type: GameWorldType::Regular,
        transfer_type: None,
        premium_required: false,
        players_online: Seq::empty(),
    }
}

/// One header/value pair applied to the record collected so far. The header
/// vocabulary is closed: any other header text fails the extraction.
pub open spec fn spec_detail_field(
    page: Seq<char>,
    offset0: int,
    k: int,
    header: Seq<char>,
    value: (Seq<char>, Seq<Seq<char>>),
    acc: WorldDetailsView,
) -> Option<WorldDetailsView> {
    if header == "Status:"@ {
        if value.1.len() < 1 {
            None
        } else {
            let t = spec_trim(value.1[0]);
            if t == "Online"@ {
                Some(WorldDetailsView { is_online: true, ..acc })
            } else if t == "Offline"@ {
                Some(WorldDetailsView { is_online: false, ..acc })
            } else {
                None
            }
        }
    } else if header == "Players Online:"@ {
        match spec_parse_u32(spec_strip_commas(value.0)) {
            None => None,
            Some(c) => Some(WorldDetailsView { players_online_count: c, ..acc }),
        }
    } else if header == "Online Record:"@ {
        match spec_record_of(spec_sanitize(value.0)) {
            None => None,
            Some((rp, dt)) => Some(
                WorldDetailsView {
                    players_online_record: rp,
                    players_online_record_date: dt,
                    ..acc
                },
            ),
        }
    } else if header == "Creation Date:"@ {
        match spec_parse_month_year(spec_sanitize(value.0)) {
            None => None,
            Some((y, m)) => Some(
                WorldDetailsView { creation_date: CalendarDate { year: y, month: m, day: 1 }, ..acc },
            ),
        }
    } else if header == "Location:"@ {
        match Location::spec_from_str(value.0) {
            None => None,
            Some(l) => Some(WorldDetailsView { location: l, ..acc }),
        }
    } else if header == "PvP Type:"@ {
        match PvpType::spec_from_str(value.0) {
            None => None,
            Some(p) => Some(WorldDetailsView { pvp_type: p, ..acc }),
        }
    } else if header == "World Quest Titles:"@ {
        match spec_select_in_nth_cells(
            page,
            ".main-content .InnerTableContainer td"@,
            offset0 + k + 1,
            "a"@,
        ) {
            None => None,
            Some(anchors) => Some(
                WorldDetailsView {
                    world_quest_titles: anchors.map_values(
                        |c: (Seq<char>, Seq<Seq<char>>)| spec_sanitize(c.0),
                    ),
                    ..acc
                },
            ),
        }
    } else if header == "BattlEye Status:"@ {
        match spec_battl_eye_of(Some(value.0)) {
            None => None,
            Some((be, bd)) => Some(
                WorldDetailsView { battl_eye: be, battl_eye_date: bd, ..acc },
            ),
        }
    } else if header == "Transfer Type:"@ {
        match TransferType::spec_from_str(value.0) {
            None => None,
            Some(t) => Some(WorldDetailsView { transfer_type: Some(t), ..acc }),
        }
    } else if header == "Premium Type:"@ {
        Some(WorldDetailsView { premium_required: value.0 == "premium"@, ..acc })
    } else if header == "Game World Type:"@ {
        Some(
            WorldDetailsView {
                game_world_type: GameWorldType::spec_from_str(
                    spec_ascii_lower(spec_sanitize(value.0)),
                ),
                ..acc
            },
        )
    } else {
        None
    }
}

/// Walk the information cells in header/value pairs from index `k`; a
/// trailing odd cell is ignored.
pub open spec fn spec_details_pairs(
    page: Seq<char>,
    offset0: int,
    cells: Seq<(Seq<char>, Seq<Seq<char>>)>,
    k: int,
    acc: WorldDetailsView,
) -> Option<WorldDetailsView>
    decreases cells.len() - k when 0 <= k <= cells.len()
{
    if k + 2 > cells.len() {
        Some(acc)
    } else {
        match spec_detail_field(page, offset0, k, cells[k].0, cells[k + 1], acc) {
            None => None,
            Some(acc2) => spec_details_pairs(page, offset0, cells, k + 2, acc2),
        }
    }
}

/// Walk the online players in three-cell tuples: name (first text of the
/// first cell), level, vocation — "None" meaning no vocation, anything else
/// drawn from the closed vocation vocabulary.
pub open spec fn spec_players_fold(
    cells: Seq<(Seq<char>, Seq<Seq<char>>)>,
    k: int,
    acc: Seq<PlayerView>,
) -> Option<Seq<PlayerView>>
    decreases cells.len() - k when 0 <= k <= cells.len()
{
    if k + 3 > cells.len() {
        Some(acc)
    } else if cells[k].1.len() < 1 {
        None
    } else {
        let lvl = spec_parse_u32(cells[k + 1].0);
        let voc_s = spec_sanitize(cells[k + 2].0);
        if lvl is None {
            None
        } else if voc_s == "None"@ {
            spec_players_fold(
                cells,
                k + 3,
                acc.push(
                    PlayerView { name: cells[k].1[0], level: lvl->Some_0, vocation: None },
                ),
            )
        } else {
            match Vocation::spec_from_str(voc_s) {
                None => None,
                Some(v) => spec_players_fold(
                    cells,
                    k + 3,
                    acc.push(
                        PlayerView {
                            name: cells[k].1[0],
                            level: lvl->Some_0,
                            vocation: Some(v),
                        },
                    ),
                ),
            }
        }
    }
}

/// What world-details extraction yields: the maintenance sentinel wins; a
/// single inner table container is the unknown-world shape and reads as
/// "no such world"; otherwise the header/value pairs of the second
/// container, and, when any players are online, the player tuples of the
/// third.
pub open spec fn spec_parse_world_details_page(page: Seq<char>, name: Seq<char>) -> Result<
    Option<WorldDetailsView>,
    TibiaError,
> {
    if spec_is_maintenance_page(page) {
        Err(TibiaError::Maintenance)
    } else {
        let mc = spec_select_cells(page, ".main-content"@);
        let conts = spec_select_cells(page, ".main-content .InnerTableContainer"@);
        if mc is None || mc->Some_0.len() == 0 || conts is None {
            Err(TibiaError::UnexpectedPageContent)
        } else if conts->Some_0.len() == 1 {
            Ok(None)
        } else {
            let cells0 = spec_select_in_nth_cells(
                page,
                ".main-content .InnerTableContainer"@,
                0,
                "td"@,
            );
            let cells = spec_select_in_nth_cells(
                page,
                ".main-content .InnerTableContainer"@,
                1,
                "td"@,
            );
            if cells0 is None || cells is None {
                Err(TibiaError::UnexpectedPageContent)
            } else {
                let offset0 = cells0->Some_0.len() as int;
                if offset0 >= usize::MAX - 1 || cells->Some_0.len() > usize::MAX - 1 - offset0 {
                    Err(TibiaError::UnexpectedPageContent)
                } else {
                    match spec_details_pairs(
                        page,
                        offset0,
                        cells->Some_0,
                        0,
                        spec_details_init(name),
                    ) {
                        None => Err(TibiaError::UnexpectedPageContent),
                        Some(d) => {
                            if d.players_online_count > 0 {
                                let pcells = spec_select_in_nth_cells(
                                    page,
                                    ".main-content .InnerTableContainer"@,
                                    2,
                                    "tr.Odd > td, tr.Even > td"@,
                                );
                                if pcells is None {
                                    Err(TibiaError::UnexpectedPageContent)
                                } else {
                                    match spec_players_fold(pcells->Some_0, 0, Seq::empty()) {
                                        None => Err(TibiaError::UnexpectedPageContent),
                                        Some(ps) => Ok(
                                            Some(WorldDetailsView { players_online: ps, ..d }),
                                        ),
                                    }
                                }
                            } else {
                                Ok(Some(d))
                            }
                        },
                    }
                }
            }
        }
    }
}

proof fn lemma_details_pairs_wf(
    page: Seq<char>,
    offset0: int,
    cells: Seq<(Seq<char>, Seq<Seq<char>>)>,
    k: int,
    acc: WorldDetailsView,
)
    requires
        0 <= k <= cells.len(),
        acc.battl_eye_date is Some ==> acc.battl_eye,
    ensures
        spec_details_pairs(page, offset0, cells, k, acc) matches Some(d) ==> (d.battl_eye_date
            is Some ==> d.battl_eye),
    decreases cells.len() - k,
{
    if k + 2 > cells.len() {
    } else {
        match spec_detail_field(page, offset0, k, cells[k].0, cells[k + 1], acc) {
            None => {},
            Some(acc2) => {
                assert(acc2.battl_eye_date is Some ==> acc2.battl_eye) by {
                    if cells[k].0 == "BattlEye Status:"@ {
                        crate::worlds::lemma_battl_eye_date_implies_enabled(
                            Some(cells[k + 1].0),
                        );
                    }
                };
                lemma_details_pairs_wf(page, offset0, cells, k + 2, acc2);
            },
        }
    }
}

/// In any extracted world details, a BattlEye enablement date is only
/// carried when BattlEye is enabled.
pub proof fn lemma_world_details_battl_eye_invariant(page: Seq<char>, name: Seq<char>)
    ensures
        spec_parse_world_details_page(page, name) matches Ok(Some(d)) ==> (d.battl_eye_date
            is Some ==> d.battl_eye),
{
    if spec_parse_world_details_page(page, name) matches Ok(Some(d)) {
        let cells0 = spec_select_in_nth_cells(page, ".main-content .InnerTableContainer"@, 0, "td"@);
        let cells = spec_select_in_nth_cells(page, ".main-content .InnerTableContainer"@, 1, "td"@);
        lemma_details_pairs_wf(
            page,
            cells0->Some_0.len() as int,
            cells->Some_0,
            0,
            spec_details_init(name),
        );
    }
}

/// A world-details page with a lone inner table container is an unknown
/// world: extraction reads it as "no such world", never as drifted page
/// content. The premises describe the upstream fallback page: it is not the
/// maintenance sentinel, it carries the main content block, and its single
/// container is the world-selection form.
pub proof fn lemma_unknown_world_is_not_found(page: Seq<char>, name: Seq<char>)
    requires
        !spec_is_maintenance_page(page),
        spec_select_cells(page, ".main-content"@) matches Some(mc) && mc.len() > 0,
        spec_select_cells(page, ".main-content .InnerTableContainer"@) matches Some(cs)
            && cs.len() == 1,
    ensures
        spec_parse_world_details_page(page, name) == Ok::<Option<WorldDetailsView>, TibiaError>(
            None,
        ),
{
}

/// Extract one world's details; `Ok(None)` is the unknown-world shape.
#[verifier::loop_isolation(false)]
#[verifier::rlimit(100)]
pub fn parse_world_details_page(page: &str, world_name: &str) -> (r: Result<
    Option<WorldDetails>,
    TibiaError,
>)
    ensures
        match r {
            Ok(Some(d)) => spec_parse_world_details_page(page@, world_name@) == Ok::<
                _,
                TibiaError,
            >(Some(d@)),
            Ok(None) => spec_parse_world_details_page(page@, world_name@) == Ok::<
                Option<WorldDetailsView>,
                TibiaError,
            >(None),
            Err(e) => spec_parse_world_details_page(page@, world_name@) == Err::<
                Option<WorldDetailsView>,
                TibiaError,
            >(e),
        },
{
    if is_maintenance_page(page) {
        return Err(TibiaError::Maintenance);
    }
    let mc = match select_cells(page, ".main-content") {
        Some(t) => t,
        None => {
            return Err(TibiaError::UnexpectedPageContent);
        },
    };
    let conts = match select_cells(page, ".main-content .InnerTableContainer") {
        Some(t) => t,
        None => {
            return Err(TibiaError::UnexpectedPageContent);
        },
    };
    if mc.len() == 0 {
        return Err(TibiaError::UnexpectedPageContent);
    }
    if conts.len() == 1 {
        return Ok(None);
    }
    let cells0 = match select_in_nth_cells(page, ".main-content .InnerTableContainer", 0, "td") {
        Some(c) => c,
        None => {
            return Err(TibiaError::UnexpectedPageContent);
        },
    };
    let cells = match select_in_nth_cells(page, ".main-content .InnerTableContainer", 1, "td") {
        Some(c) => c,
        None => {
            return Err(TibiaError::UnexpectedPageContent);
        },
    };
    let offset0: usize = cells0.len();
    if offset0 >= usize::MAX - 1 || cells.len() > usize::MAX - 1 - offset0 {
        return Err(TibiaError::UnexpectedPageContent);
    }
    let ghost gcells = cells.deep_view();
    let mut details = WorldDetails {
        name: world_name.to_owned(),
        is_online: true,
        players_online_count: 0,
        players_online_record: 0,
        players_online_record_date: UtcDateTime {
            year: 1970,
            month: 1,
            day: 1,
            hour: 0,
            minute: 0,
            second: 0,
        },
        creation_date: CalendarDate { year: 1, month: 1, day: 1 },
        location: Location::Europe,
        pvp_type: PvpType::Open,
        world_quest_titles: Vec::new(),
        battl_eye: false,
        battl_eye_date: None,
        game_world_type: GameWorldType::Regular,
        transfer_type: None,
        premium_required: false,
        players_online: Vec::new(),
    };
    proof {
        assert(details@.world_quest_titles =~= Seq::<Seq<char>>::empty());
        assert(details@.players_online =~= Seq::<PlayerView>::empty());
        assert(details@ == spec_details_init(world_name@));
    }
    let mut k: usize = 0;
    while k < cells.len() && cells.len() - k >= 2
        invariant
            k <= gcells.len(),
            spec_details_pairs(page@, offset0 as int, gcells, 0, spec_details_init(world_name@))
                == spec_details_pairs(page@, offset0 as int, gcells, k as int, details@),
            details@.players_online =~= Seq::<PlayerView>::empty(),
        decreases gcells.len() - k,
    {
        proof {
            assert(gcells[k as int] == cells@[k as int].deep_view());
            assert(gcells[k + 1] == cells@[k + 1].deep_view());
        }
        let ghost header = gcells[k as int].0;
        let ghost value = gcells[k + 1];
        let ghost before = details@;
        if str_eq(cells[k].0.as_str(), "Status:") {
            let texts = &cells[k + 1].1;
            if texts.len() < 1 {
                return Err(TibiaError::UnexpectedPageContent);
            }
            proof {
                assert(value.1[0] == texts@[0].deep_view());
            }
            let t0 = to_chars(texts[0].as_str());
            let t = trim_chars(&t0);
            if chars_eq_str(&t, "Online") {
                details.is_online = true;
            } else if chars_eq_str(&t, "Offline") {
                details.is_online = false;
            } else {
                return Err(TibiaError::UnexpectedPageContent);
            }
        } else if str_eq(cells[k].0.as_str(), "Players Online:") {
            let vc = to_chars(cells[k + 1].0.as_str());
            let stripped = crate::num::strip_commas_range(&vc, 0, vc.len());
            assert(vc@.subrange(0, vc@.len() as int) =~= vc@);
            assert(stripped@.subrange(0, stripped@.len() as int) =~= stripped@);
            match crate::num::parse_u32_range(&stripped, 0, stripped.len()) {
                Some(c) => {
                    details.players_online_count = c;
                },
                None => {
                    return Err(TibiaError::UnexpectedPageContent);
                },
            }
        } else if str_eq(cells[k].0.as_str(), "Online Record:") {
            let vc = to_chars(cells[k + 1].0.as_str());
            let rh = sanitize_chars(&vc);
            match record_of(&rh) {
                Some((rp, dt)) => {
                    details.players_online_record = rp;
                    details.players_online_record_date = dt;
                },
                None => {
                    return Err(TibiaError::UnexpectedPageContent);
                },
            }
        } else if str_eq(cells[k].0.as_str(), "Creation Date:") {
            let vc = to_chars(cells[k + 1].0.as_str());
            let sc = sanitize_chars(&vc);
            match parse_month_year(&sc) {
                Some((y, m)) => {
                    details.creation_date = CalendarDate { year: y, month: m, day: 1 };
                },
                None => {
                    return Err(TibiaError::UnexpectedPageContent);
                },
            }
        } else if str_eq(cells[k].0.as_str(), "Location:") {
            match Location::from_str(cells[k + 1].0.as_str()) {
                Ok(l) => {
                    details.location = l;
                },
                Err(e) => {
                    return Err(e);
                },
            }
        } else if str_eq(cells[k].0.as_str(), "PvP Type:") {
            match PvpType::from_str(cells[k + 1].0.as_str()) {
                Ok(p) => {
                    details.pvp_type = p;
                },
                Err(e) => {
                    return Err(e);
                },
            }
        } else if str_eq(cells[k].0.as_str(), "World Quest Titles:") {
            let anchors = match select_in_nth_cells(
                page,
                ".main-content .InnerTableContainer td",
                offset0 + k + 1,
                "a",
            ) {
                Some(a) => a,
                None => {
                    return Err(TibiaError::UnexpectedPageContent);
                },
            };
            let ghost gas = anchors.deep_view();
            let mut titles: Vec<String> = Vec::new();
            let mut t: usize = 0;
            while t < anchors.len()
                invariant
                    t <= anchors@.len(),
                    gas == anchors.deep_view(),
                    gas.len() == anchors@.len(),
                    titles.deep_view().len() == t,
                    forall|j: int|
                        0 <= j < t ==> #[trigger] titles.deep_view()[j] == spec_sanitize(
                            gas[j].0,
                        ),
                decreases anchors@.len() - t,
            {
                let ghost prevt = titles.deep_view();
                titles.push(sanitize_str(anchors[t].0.as_str()));
                proof {
                    assert(gas[t as int] == anchors@[t as int].deep_view());
                    assert forall|j: int| 0 <= j < t + 1 implies #[trigger] titles.deep_view()[j]
                        == spec_sanitize(gas[j].0) by {
                        assert(titles.deep_view()[j] == titles@[j].deep_view());
                        if j < t {
                            assert(titles.deep_view()[j] == prevt[j]);
                        }
                    }
                }
                t += 1;
            }
            proof {
                assert(titles.deep_view() =~= gas.map_values(
                    |c: (Seq<char>, Seq<Seq<char>>)| spec_sanitize(c.0),
                ));
            }
            details.world_quest_titles = titles;
        } else if str_eq(cells[k].0.as_str(), "BattlEye Status:") {
            let tip: Option<String> = Some(cells[k + 1].0.clone());
            match battl_eye_of(&tip) {
                Some((be, bd)) => {
                    details.battl_eye = be;
                    details.battl_eye_date = bd;
                },
                None => {
                    return Err(TibiaError::UnexpectedPageContent);
                },
            }
        } else if str_eq(cells[k].0.as_str(), "Transfer Type:") {
            match TransferType::from_str(cells[k + 1].0.as_str()) {
                Ok(tt) => {
                    details.transfer_type = Some(tt);
                },
                Err(e) => {
                    return Err(e);
                },
            }
        } else if str_eq(cells[k].0.as_str(), "Premium Type:") {
            details.premium_required = str_eq(cells[k + 1].0.as_str(), "premium");
        } else if str_eq(cells[k].0.as_str(), "Game World Type:") {
            let vc = to_chars(cells[k + 1].0.as_str());
            let sc = sanitize_chars(&vc);
            let lc = ascii_lower(&sc);
            let ls = string_from_chars(&lc);
            details.game_world_type = GameWorldType::from_str(ls.as_str());
        } else {
            return Err(TibiaError::UnexpectedPageContent);
        }
        proof {
            assert(spec_detail_field(page@, offset0 as int, k as int, header, value, before)
                == Some(details@));
        }
        k += 2;
    }
    if details.players_online_count > 0 {
        let pcells = match select_in_nth_cells(
            page,
            ".main-content .InnerTableContainer",
            2,
            "tr.Odd > td, tr.Even > td",
        ) {
            Some(c) => c,
            None => {
                return Err(TibiaError::UnexpectedPageContent);
            },
        };
        let ghost gp = pcells.deep_view();
        let mut players: Vec<Player> = Vec::new();
        let mut k2: usize = 0;
        proof {
            assert(players.deep_view() =~= Seq::<PlayerView>::empty());
        }
        while k2 < pcells.len() && pcells.len() - k2 >= 3
            invariant
                k2 <= gp.len(),
                spec_players_fold(gp, 0, Seq::empty()) == spec_players_fold(
                    gp,
                    k2 as int,
                    players.deep_view(),
                ),
            decreases gp.len() - k2,
        {
            proof {
                assert(gp[k2 as int] == pcells@[k2 as int].deep_view());
                assert(gp[k2 + 1] == pcells@[k2 + 1].deep_view());
                assert(gp[k2 + 2] == pcells@[k2 + 2].deep_view());
            }
            let texts = &pcells[k2].1;
            if texts.len() < 1 {
                return Err(TibiaError::UnexpectedPageContent);
            }
            proof {
                assert(gp[k2 as int].1[0] == texts@[0].deep_view());
            }
            let level = match parse_u32_str(pcells[k2 + 1].0.as_str()) {
                Some(l) => l,
                None => {
                    return Err(TibiaError::UnexpectedPageContent);
                },
            };
            let vc = to_chars(pcells[k2 + 2].0.as_str());
            let sc = sanitize_chars(&vc);
            let vocation: Option<Vocation> = if chars_eq_str(&sc, "None") {
                None
            } else {
                let vs = string_from_chars(&sc);
                match Vocation::from_str(vs.as_str()) {
                    Ok(v) => Some(v),
                    Err(e) => {
                        return Err(e);
                    },
                }
            };
            let ghost prevp = players.deep_view();
            players.push(Player { name: texts[0].clone(), level, vocation });
            proof {
                assert(players.deep_view() =~= prevp.push(
                    PlayerView { name: gp[k2 as int].1[0], level: level, vocation: vocation },
                ));
            }
            k2 += 3;
        }
        details.players_online = players;
        return Ok(Some(details));
    }
    Ok(Some(details))
}

} // verus!
