//! The residences extractor: the page must name the requested town and
//! world in its heading sentence and carry exactly three listing tables
//! (filter form, results, towns list). Result rows are four text columns
//! (name, size, rent, status) plus a hidden numeric house id; the status
//! text is classified into rented, auction without bid, finished auction,
//! or a running auction whose relative countdown is resolved against the
//! caller's clock reading.

use vstd::prelude::*;

use crate::classify::is_maintenance_page;
use crate::classify::spec_is_maintenance_page;
use crate::dom::select_cells;
use crate::dom::select_in_nth_attrs;
use crate::dom::select_in_nth_cells;
use crate::dom::spec_select_cells;
use crate::dom::spec_select_in_nth_attrs;
use crate::dom::spec_select_in_nth_cells;
use crate::error::TibiaError;
use crate::models::Residence;
use crate::models::ResidenceStatus;
use crate::models::ResidenceType;
use crate::models::ResidenceView;
use crate::num::digit_run_back_start;
use crate::num::digit_run_end;
use crate::num::first_digit_from;
use crate::num::parse_u16_range;
use crate::num::parse_u32_range;
use crate::num::parse_u32_str;
use crate::num::spec_digit_run_back_start;
use crate::num::spec_digit_run_end;
use crate::num::spec_first_digit;
use crate::num::spec_parse_u16;
use crate::num::spec_parse_u32;
use crate::sanitize::sanitize_chars;
use crate::sanitize::spec_sanitize;
use crate::text::contains_sub;
use crate::text::find_from;
use crate::text::letter_run_back_start;
use crate::text::spec_contains;
use crate::text::spec_find;
use crate::text::spec_letter_run_back_start;
use crate::text::string_from_chars;
use crate::text::sub_chars;
use crate::text::to_chars;
use crate::time::EPOCH_YEAR_10000;
use crate::time::lemma_expiry_epoch_future;
use crate::time::resolve_expiry;
use crate::time::spec_epoch_seconds;
use crate::time::spec_expiry_epoch;
use crate::timeparse::chars_eq_str;
use crate::towns::spec_some_attr_missing;

verus! {

/// A residence status at specification level: a running auction's expiry
/// is the absolute epoch second its countdown resolves to.
pub enum SpecResidenceStatus {
    Rented,
    AuctionNoBid,
    AuctionWithBid { bid: u32, expiry_epoch: int },
    AuctionFinished { bid: u32 },
}

/// How an extracted status realizes its specification: equal tags and bids,
/// and a well-formed expiry instant denoting exactly the resolved epoch
/// second.
pub open spec fn status_matches(s: ResidenceStatus, sp: SpecResidenceStatus) -> bool {
    match sp {
        SpecResidenceStatus::Rented => s is Rented,
        SpecResidenceStatus::AuctionNoBid => s is AuctionNoBid,
        SpecResidenceStatus::AuctionFinished { bid } => s matches ResidenceStatus::AuctionFinished {
            bid: b2,
        } && b2 == bid,
        SpecResidenceStatus::AuctionWithBid { bid, expiry_epoch } => s
            matches ResidenceStatus::AuctionWithBid { bid: b2, expiry_time } && b2 == bid
            && expiry_time.wf() && expiry_time.year >= 1970 && spec_epoch_seconds(expiry_time)
            == expiry_epoch && expiry_epoch < EPOCH_YEAR_10000,
    }
}

/// Classify a sanitized status text against a clock reading `now`:
/// "rented"; "auctioned (no bid yet)"; otherwise a "<n> gold" bid that is
/// either finished or carries a "<n> (day|days|hour|hours) left" countdown
/// resolved to an absolute expiry. `None` is a text outside these shapes,
/// or an expiry past the four-digit-year range.
pub open spec fn spec_residence_status(st: Seq<char>, now: int) -> Option<SpecResidenceStatus> {
    if st == "rented"@ {
        Some(SpecResidenceStatus::Rented)
    } else if st == "auctioned (no bid yet)"@ {
        Some(SpecResidenceStatus::AuctionNoBid)
    } else {
        let g = spec_find(st, " gold"@, 0);
        if g is None {
            None
        } else {
            let b = spec_digit_run_back_start(st, g->Some_0);
            if b == g->Some_0 {
                None
            } else {
                match spec_parse_u32(st.subrange(b, g->Some_0)) {
                    None => None,
                    Some(bid) => {
                        if spec_contains(st, "finished"@) {
                            Some(SpecResidenceStatus::AuctionFinished { bid })
                        } else {
                            let l = spec_find(st, " left"@, 0);
                            if l is None {
                                None
                            } else {
                                let us = spec_letter_run_back_start(st, l->Some_0);
                                if us == l->Some_0 || us == 0 || st[us - 1] != ' ' {
                                    None
                                } else {
                                    let unit = st.subrange(us, l->Some_0);
                                    let ds = spec_digit_run_back_start(st, us - 1);
                                    if ds == us - 1 {
                                        None
                                    } else {
                                        match spec_parse_u32(st.subrange(ds, us - 1)) {
                                            None => None,
                                            Some(n) => {
                                                let unit_days = unit == "day"@ || unit == "days"@;
                                                let unit_hours = unit == "hour"@ || unit
                                                    == "hours"@;
                                                if !unit_days && !unit_hours {
                                                    None
                                                } else if unit_days && n == 0 {
                                                    // A zero day count would anchor at the
                                                    // current day's 08:00, which can already
                                                    // be past; the expiry must lie ahead.
                                                    None
                                                } else {
                                                    let e = spec_expiry_epoch(
                                                        now,
                                                        n as int,
                                                        unit_days,
                                                    );
                                                    if e >= EPOCH_YEAR_10000 {
                                                        None
                                                    } else {
                                                        Some(
                                                            SpecResidenceStatus::AuctionWithBid {
                                                                bid,
                                                                expiry_epoch: e,
                                                            },
                                                        )
                                                    }
                                                }
                                            },
                                        }
                                    }
                                }
                            }
                        }
                    },
                }
            }
        }
    }
}

/// Classify one sanitized residence status text. An accepted running
/// auction's expiry lies strictly after the clock reading `now`.
pub fn classify_residence_status(st: &Vec<char>, now: u64) -> (r: Option<ResidenceStatus>)
    ensures
        match r {
            Some(s) => spec_residence_status(st@, now as int) matches Some(sp) && status_matches(
                s,
                sp,
            ),
            None => spec_residence_status(st@, now as int) is None,
        },
        r matches Some(ResidenceStatus::AuctionWithBid { expiry_time, .. })
            ==> spec_epoch_seconds(expiry_time) > now,
{
    proof {
        reveal_strlit(" gold");
        reveal_strlit("finished");
        reveal_strlit(" left");
    }
    let slen: usize = st.len();
    assert(slen == st@.len());
    if chars_eq_str(st, "rented") {
        return Some(ResidenceStatus::Rented);
    }
    if chars_eq_str(st, "auctioned (no bid yet)") {
        return Some(ResidenceStatus::AuctionNoBid);
    }
    let g: usize = match find_from(st, &to_chars(" gold"), 0) {
        Some(i) => i,
        None => {
            return None;
        },
    };
    let b: usize = digit_run_back_start(st, g);
    if b == g {
        return None;
    }
    let bid: u32 = match parse_u32_range(st, b, g) {
        Some(v) => v,
        None => {
            return None;
        },
    };
    if contains_sub(st, &to_chars("finished")) {
        return Some(ResidenceStatus::AuctionFinished { bid });
    }
    let l: usize = match find_from(st, &to_chars(" left"), 0) {
        Some(i) => i,
        None => {
            return None;
        },
    };
    let us: usize = letter_run_back_start(st, l);
    if us == l || us == 0 || st[us - 1] != ' ' {
        return None;
    }
    let unit = sub_chars(st, us, l);
    let ds: usize = digit_run_back_start(st, us - 1);
    if ds == us - 1 {
        return None;
    }
    let n: u32 = match parse_u32_range(st, ds, us - 1) {
        Some(v) => v,
        None => {
            return None;
        },
    };
    let unit_days: bool = chars_eq_str(&unit, "day") || chars_eq_str(&unit, "days");
    let unit_hours: bool = chars_eq_str(&unit, "hour") || chars_eq_str(&unit, "hours");
    if !unit_days && !unit_hours {
        return None;
    }
    if unit_days && n == 0 {
        return None;
    }
    match resolve_expiry(now, n, unit_days) {
        None => None,
        Some(dt) => {
            proof {
                lemma_expiry_epoch_future(now as int, n as int, unit_days);
            }
            Some(ResidenceStatus::AuctionWithBid { bid, expiry_time: dt })
        },
    }
}

/// Every status that classification accepts keeps the data-model invariant:
/// a running auction's resolved expiry lies strictly after the clock
/// reading it was resolved against.
pub proof fn lemma_status_expiry_future(st: Seq<char>, now: int)
    requires
        now >= 0,
    ensures
        spec_residence_status(st, now) matches Some(sp) ==> (sp
            matches SpecResidenceStatus::AuctionWithBid { expiry_epoch, .. } ==> expiry_epoch
            > now),
{
    if st == "rented"@ || st == "auctioned (no bid yet)"@ {
    } else {
        let g = spec_find(st, " gold"@, 0);
        if g is Some {
            let b = spec_digit_run_back_start(st, g->Some_0);
            if b != g->Some_0 && spec_parse_u32(st.subrange(b, g->Some_0)) is Some
                && !spec_contains(st, "finished"@) {
                let l = spec_find(st, " left"@, 0);
                if l is Some {
                    let us = spec_letter_run_back_start(st, l->Some_0);
                    if !(us == l->Some_0 || us == 0 || st[us - 1] != ' ') {
                        let unit = st.subrange(us, l->Some_0);
                        let ds = spec_digit_run_back_start(st, us - 1);
                        if ds != us - 1 {
                            match spec_parse_u32(st.subrange(ds, us - 1)) {
                                Some(n) => {
                                    let unit_days = unit == "day"@ || unit == "days"@;
                                    let unit_hours = unit == "hour"@ || unit == "hours"@;
                                    if (unit_days || unit_hours) && !(unit_days && n == 0) {
                                        lemma_expiry_epoch_future(now, n as int, unit_days);
                                    }
                                },
                                None => {},
                            }
                        }
                    }
                }
            }
        }
    }
}

/// One result row at specification level.
pub struct SpecResidenceRow {
    pub id: u32,
    pub name: Seq<char>,
    pub size: u16,
    pub rent: u32,
    pub status: SpecResidenceStatus,
}

/// How an extracted residence realizes a specification row.
pub open spec fn residence_matches(
    rv: ResidenceView,
    sr: SpecResidenceRow,
    town: Seq<char>,
    rt: ResidenceType,
) -> bool {
    &&& rv.id == sr.id
    &&& rv.town == town
    &&& rv.residence_type == rt
    &&& rv.name == sr.name
    &&& rv.size == sr.size
    &&& rv.rent == sr.rent
    &&& status_matches(rv.status, sr.status)
}

/// One result row: the hidden numeric house id; four text columns; size and
/// rent read as the first run of digits in their columns, rent being in
/// thousands of the currency; the status text sanitized and classified.
pub open spec fn spec_res_row(
    page: Seq<char>,
    rows: Seq<(Seq<char>, Seq<Seq<char>>)>,
    r: int,
    now: int,
) -> Option<SpecResidenceRow> {
    let ids = spec_select_in_nth_attrs(
        page,
        ".main-content .TableContainer table.TableContent tr"@,
        r,
        "input[name=houseid]"@,
        "value"@,
    );
    if ids is None || ids->Some_0.len() < 1 || ids->Some_0[0] is None {
        None
    } else {
        match spec_parse_u32(ids->Some_0[0]->Some_0) {
            None => None,
            Some(id) => {
                if rows[r].1.len() != 4 {
                    None
                } else {
                    let size_s = rows[r].1[1];
                    let rent_s = rows[r].1[2];
                    let fs = spec_first_digit(size_s, 0);
                    let fr = spec_first_digit(rent_s, 0);
                    if fs is None || fr is None {
                        None
                    } else {
                        let size = spec_parse_u16(
                            size_s.subrange(fs->Some_0, spec_digit_run_end(size_s, fs->Some_0)),
                        );
                        let rent_k = spec_parse_u32(
                            rent_s.subrange(fr->Some_0, spec_digit_run_end(rent_s, fr->Some_0)),
                        );
                        if size is None || rent_k is None || rent_k->Some_0 * 1000 > u32::MAX {
                            None
                        } else {
                            match spec_residence_status(spec_sanitize(rows[r].1[3]), now) {
                                None => None,
                                Some(status) => Some(
                                    SpecResidenceRow {
                                        id,
                                        name: spec_sanitize(rows[r].1[0]),
                                        size: size->Some_0,
                                        rent: (rent_k->Some_0 * 1000) as u32,
                                        status,
                                    },
                                ),
                            }
                        }
                    }
                }
            },
        }
    }
}

/// Walk the result rows from index `r` (row 0 is the header row).
pub open spec fn spec_res_rows(
    page: Seq<char>,
    rows: Seq<(Seq<char>, Seq<Seq<char>>)>,
    r: int,
    now: int,
    acc: Seq<SpecResidenceRow>,
) -> Option<Seq<SpecResidenceRow>>
    decreases rows.len() - r when 0 <= r <= rows.len()
{
    if r >= rows.len() {
        Some(acc)
    } else {
        match spec_res_row(page, rows, r, now) {
            None => None,
            Some(row) => spec_res_rows(page, rows, r + 1, now, acc.push(row)),
        }
    }
}

/// What residence extraction yields. The maintenance sentinel wins. The
/// heading must bind the requested town and world into one sentence and the
/// page must carry exactly three listing tables, else the upstream site
/// substituted a fallback page: not found. The towns table must list the
/// requested town, else not found. A results table whose sole data row has
/// a single text column carries no residences at all.
pub open spec fn spec_parse_residences_page(
    page: Seq<char>,
    world: Seq<char>,
    town: Seq<char>,
    now: int,
) -> Result<Seq<SpecResidenceRow>, TibiaError> {
    if spec_is_maintenance_page(page) {
        Err(TibiaError::Maintenance)
    } else {
        let mc = spec_select_cells(page, ".main-content"@);
        let hdr = spec_select_cells(page, ".main-content .Text"@);
        if mc is None || mc->Some_0.len() == 0 || hdr is None {
            Err(TibiaError::UnexpectedPageContent)
        } else if hdr->Some_0.len() == 0 || hdr->Some_0[0].1.len() == 0 {
            Err(TibiaError::UnexpectedPageContent)
        } else if !spec_contains(hdr->Some_0[0].1[0], " in "@ + town + " on "@ + world) {
            Err(TibiaError::NotFound)
        } else {
            let tables = spec_select_cells(page, ".main-content .TableContainer table.TableContent"@);
            if tables is None {
                Err(TibiaError::UnexpectedPageContent)
            } else if tables->Some_0.len() != 3 {
                Err(TibiaError::NotFound)
            } else {
                let tattrs = spec_select_in_nth_attrs(
                    page,
                    ".main-content .TableContainer table.TableContent"@,
                    2,
                    "input[name=town]"@,
                    "value"@,
                );
                if tattrs is None || spec_some_attr_missing(tattrs->Some_0) {
                    Err(TibiaError::UnexpectedPageContent)
                } else if !(exists|i: int|
                    0 <= i < tattrs->Some_0.len() && spec_sanitize(
                        (#[trigger] tattrs->Some_0[i])->Some_0,
                    ) == town) {
                    Err(TibiaError::NotFound)
                } else {
                    let rows = spec_select_in_nth_cells(
                        page,
                        ".main-content .TableContainer table.TableContent"@,
                        0,
                        "tr"@,
                    );
                    if rows is None {
                        Err(TibiaError::UnexpectedPageContent)
                    } else if rows->Some_0.len() <= 1 {
                        Ok(Seq::empty())
                    } else if rows->Some_0[1].1.len() == 1 {
                        Ok(Seq::empty())
                    } else {
                        match spec_res_rows(page, rows->Some_0, 1, now, Seq::empty()) {
                            None => Err(TibiaError::UnexpectedPageContent),
                            Some(rs) => Ok(rs),
                        }
                    }
                }
            }
        }
    }
}

proof fn lemma_res_rows_expiry_future(
    page: Seq<char>,
    rows: Seq<(Seq<char>, Seq<Seq<char>>)>,
    r: int,
    now: int,
    acc: Seq<SpecResidenceRow>,
)
    requires
        now >= 0,
        0 <= r <= rows.len(),
        forall|i: int|
            0 <= i < acc.len() ==> ((#[trigger] acc[i]).status
                matches SpecResidenceStatus::AuctionWithBid { expiry_epoch, .. }
                ==> expiry_epoch > now),
    ensures
        spec_res_rows(page, rows, r, now, acc) matches Some(rs) ==> forall|i: int|
            0 <= i < rs.len() ==> ((#[trigger] rs[i]).status
                matches SpecResidenceStatus::AuctionWithBid { expiry_epoch, .. }
                ==> expiry_epoch > now),
    decreases rows.len() - r,
{
    if r >= rows.len() {
    } else {
        match spec_res_row(page, rows, r, now) {
            None => {},
            Some(row) => {
                lemma_status_expiry_future(spec_sanitize(rows[r].1[3]), now);
                let pushed = acc.push(row);
                assert(forall|i: int|
                    0 <= i < pushed.len() ==> ((#[trigger] pushed[i]).status
                        matches SpecResidenceStatus::AuctionWithBid { expiry_epoch, .. }
                        ==> expiry_epoch > now));
                lemma_res_rows_expiry_future(page, rows, r + 1, now, pushed);
            },
        }
    }
}

/// In any successfully extracted residence list, a running auction's expiry
/// lies strictly in the future of the extraction instant it was resolved
/// against.
pub proof fn lemma_residences_expiry_in_future(
    page: Seq<char>,
    world: Seq<char>,
    town: Seq<char>,
    now: int,
)
    requires
        now >= 0,
    ensures
        spec_parse_residences_page(page, world, town, now) matches Ok(rs) ==> forall|i: int|
            0 <= i < rs.len() ==> ((#[trigger] rs[i]).status
                matches SpecResidenceStatus::AuctionWithBid { expiry_epoch, .. }
                ==> expiry_epoch > now),
{
    if spec_parse_residences_page(page, world, town, now) matches Ok(rs) {
        let rows = spec_select_in_nth_cells(
            page,
            ".main-content .TableContainer table.TableContent"@,
            0,
            "tr"@,
        );
        if rows is Some && rows->Some_0.len() > 1 && rows->Some_0[1].1.len() != 1 {
            lemma_res_rows_expiry_future(page, rows->Some_0, 1, now, Seq::empty());
        }
    }
}

/// Extract the residences of one town and type on one world. `now_epoch`
/// is the caller's clock reading in seconds since the Unix epoch; auction
/// countdowns are resolved against it.
#[verifier::loop_isolation(false)]
#[verifier::rlimit(60)]
pub fn parse_residences_page(
    page: &str,
    world_name: &str,
    residence_type: ResidenceType,
    town: &str,
    now_epoch: u64,
) -> (r: Result<Vec<Residence>, TibiaError>)
    ensures
        match r {
            Ok(v) => spec_parse_residences_page(page@, world_name@, town@, now_epoch as int)
                matches Ok(rs) && v.deep_view().len() == rs.len() && forall|i: int|
                0 <= i < rs.len() ==> residence_matches(
                    #[trigger] v.deep_view()[i],
                    rs[i],
                    town@,
                    residence_type,
                ),
            Err(e) => spec_parse_residences_page(page@, world_name@, town@, now_epoch as int)
                == Err::<Seq<SpecResidenceRow>, _>(e),
        },
{
    proof {
        reveal_strlit(" in ");
        reveal_strlit(" on ");
    }
    if is_maintenance_page(page) {
        return Err(TibiaError::Maintenance);
    }
    let mc = match select_cells(page, ".main-content") {
        Some(t) => t,
        None => {
            return Err(TibiaError::UnexpectedPageContent);
        },
    };
    let hdr = match select_cells(page, ".main-content .Text") {
        Some(t) => t,
        None => {
            return Err(TibiaError::UnexpectedPageContent);
        },
    };
    if mc.len() == 0 {
        return Err(TibiaError::UnexpectedPageContent);
    }
    if hdr.len() == 0 || hdr[0].1.len() == 0 {
        proof {
            if hdr@.len() > 0 {
                assert(hdr.deep_view()[0] == hdr@[0].deep_view());
            }
        }
        return Err(TibiaError::UnexpectedPageContent);
    }
    proof {
        assert(hdr.deep_view()[0] == hdr@[0].deep_view());
        assert(hdr.deep_view()[0].1[0] == hdr@[0].1@[0].deep_view());
    }
    let title = to_chars(hdr[0].1[0].as_str());
    let mut pat: Vec<char> = to_chars(" in ");
    let tc = to_chars(town);
    pat.extend_from_slice(tc.as_slice());
    let onc = to_chars(" on ");
    pat.extend_from_slice(onc.as_slice());
    let wc = to_chars(world_name);
    pat.extend_from_slice(wc.as_slice());
    assert(pat@ =~= " in "@ + town@ + " on "@ + world_name@);
    if !contains_sub(&title, &pat) {
        return Err(TibiaError::NotFound);
    }
    let tables = match select_cells(page, ".main-content .TableContainer table.TableContent") {
        Some(t) => t,
        None => {
            return Err(TibiaError::UnexpectedPageContent);
        },
    };
    if tables.len() != 3 {
        return Err(TibiaError::NotFound);
    }
    let tattrs = match select_in_nth_attrs(
        page,
        ".main-content .TableContainer table.TableContent",
        2,
        "input[name=town]",
        "value",
    ) {
        Some(a) => a,
        None => {
            return Err(TibiaError::UnexpectedPageContent);
        },
    };
    let ghost gt = tattrs.deep_view();
    let mut found: bool = false;
    let mut ti: usize = 0;
    while ti < tattrs.len()
        invariant
            ti <= tattrs@.len(),
            gt == tattrs.deep_view(),
            gt.len() == tattrs@.len(),
            forall|j: int| 0 <= j < ti ==> (#[trigger] gt[j]) is Some,
            !found ==> forall|j: int|
                0 <= j < ti ==> spec_sanitize((#[trigger] gt[j])->Some_0) != town@,
            found ==> exists|j: int|
                0 <= j < ti && spec_sanitize((#[trigger] gt[j])->Some_0) == town@,
        decreases tattrs@.len() - ti,
    {
        proof {
            assert(gt[ti as int] == tattrs@[ti as int].deep_view());
        }
        let a = &tattrs[ti];
        match a {
            Some(v) => {
                let vc = to_chars(v.as_str());
                let sv = sanitize_chars(&vc);
                if crate::text::str_eq(string_from_chars(&sv).as_str(), town) {
                    found = true;
                }
            },
            None => {
                proof {
                    assert(spec_some_attr_missing(gt));
                }
                return Err(TibiaError::UnexpectedPageContent);
            },
        }
        ti += 1;
    }
    proof {
        assert(!spec_some_attr_missing(gt));
    }
    if !found {
        return Err(TibiaError::NotFound);
    }
    let rows = match select_in_nth_cells(
        page,
        ".main-content .TableContainer table.TableContent",
        0,
        "tr",
    ) {
        Some(t) => t,
        None => {
            return Err(TibiaError::UnexpectedPageContent);
        },
    };
    let ghost grows = rows.deep_view();
    if rows.len() <= 1 {
        let out: Vec<Residence> = Vec::new();
        proof {
            assert(out.deep_view() =~= Seq::<ResidenceView>::empty());
        }
        return Ok(out);
    }
    proof {
        assert(grows[1] == rows@[1].deep_view());
    }
    if rows[1].1.len() == 1 {
        let out: Vec<Residence> = Vec::new();
        proof {
            assert(out.deep_view() =~= Seq::<ResidenceView>::empty());
        }
        return Ok(out);
    }
    let mut out: Vec<Residence> = Vec::new();
    let ghost mut specrows: Seq<SpecResidenceRow> = Seq::empty();
    let mut r: usize = 1;
    while r < rows.len()
        invariant
            1 <= r <= grows.len(),
            grows == rows.deep_view(),
            grows.len() == rows@.len(),
            spec_res_rows(page@, grows, 1, now_epoch as int, Seq::empty()) == spec_res_rows(
                page@,
                grows,
                r as int,
                now_epoch as int,
                specrows,
            ),
            out.deep_view().len() == specrows.len(),
            forall|i: int|
                0 <= i < specrows.len() ==> residence_matches(
                    #[trigger] out.deep_view()[i],
                    specrows[i],
                    town@,
                    residence_type,
                ),
        decreases grows.len() - r,
    {
        proof {
            assert(grows[r as int] == rows@[r as int].deep_view());
        }
        let ids = match select_in_nth_attrs(
            page,
            ".main-content .TableContainer table.TableContent tr",
            r,
            "input[name=houseid]",
            "value",
        ) {
            Some(a) => a,
            None => {
                return Err(TibiaError::UnexpectedPageContent);
            },
        };
        if ids.len() < 1 {
            return Err(TibiaError::UnexpectedPageContent);
        }
        proof {
            assert(ids.deep_view()[0] == ids@[0].deep_view());
        }
        let id: u32 = match &ids[0] {
            Some(v) => {
                match parse_u32_str(v.as_str()) {
                    Some(x) => x,
                    None => {
                        return Err(TibiaError::UnexpectedPageContent);
                    },
                }
            },
            None => {
                return Err(TibiaError::UnexpectedPageContent);
            },
        };
        let texts = &rows[r].1;
        if texts.len() != 4 {
            return Err(TibiaError::UnexpectedPageContent);
        }
        proof {
            assert(grows[r as int].1[0] == texts@[0].deep_view());
            assert(grows[r as int].1[1] == texts@[1].deep_view());
            assert(grows[r as int].1[2] == texts@[2].deep_view());
            assert(grows[r as int].1[3] == texts@[3].deep_view());
        }
        let size_s = to_chars(texts[1].as_str());
        let rent_s = to_chars(texts[2].as_str());
        let fs: usize = match first_digit_from(&size_s, 0) {
            Some(i) => i,
            None => {
                return Err(TibiaError::UnexpectedPageContent);
            },
        };
        let fr: usize = match first_digit_from(&rent_s, 0) {
            Some(i) => i,
            None => {
                return Err(TibiaError::UnexpectedPageContent);
            },
        };
        let se: usize = digit_run_end(&size_s, fs);
        let re_: usize = digit_run_end(&rent_s, fr);
        let size: u16 = match parse_u16_range(&size_s, fs, se) {
            Some(v) => v,
            None => {
                return Err(TibiaError::UnexpectedPageContent);
            },
        };
        let rent_k: u32 = match parse_u32_range(&rent_s, fr, re_) {
            Some(v) => v,
            None => {
                return Err(TibiaError::UnexpectedPageContent);
            },
        };
        if rent_k > 4294967 {
            return Err(TibiaError::UnexpectedPageContent);
        }
        let rent: u32 = rent_k * 1000;
        let name_c = to_chars(texts[0].as_str());
        let name_sv = sanitize_chars(&name_c);
        let st_c = to_chars(texts[3].as_str());
        let st = sanitize_chars(&st_c);
        let status = match classify_residence_status(&st, now_epoch) {
            Some(s) => s,
            None => {
                return Err(TibiaError::UnexpectedPageContent);
            },
        };
        let ghost prev = out.deep_view();
        out.push(
            Residence {
                id,
                town: town.to_owned(),
                residence_type,
                name: string_from_chars(&name_sv),
                size,
                rent,
                status,
            },
        );
        proof {
            let srow = spec_res_row(page@, grows, r as int, now_epoch as int)->Some_0;
            specrows = specrows.push(srow);
            assert(out.deep_view().len() == prev.len() + 1);
            assert forall|i: int| 0 <= i < specrows.len() implies residence_matches(
                #[trigger] out.deep_view()[i],
                specrows[i],
                town@,
                residence_type,
            ) by {
                assert(out.deep_view()[i] == out@[i].deep_view());
                if i < prev.len() {
                    assert(out.deep_view()[i] == prev[i]);
                }
            }
        }
        r += 1;
    }
    Ok(out)
}

} // verus!
