//! The character extractor: the upstream site answers unknown names with a
//! structurally empty page (no listing table at all), so absence of the
//! information table is the only not-found signal. The information table is
//! read as two-cell rows over a closed header vocabulary; an unrecognized
//! header fails loudly.

use vstd::prelude::*;

use crate::classify::is_maintenance_page;
use crate::classify::spec_is_maintenance_page;
use crate::dom::select_cells;
use crate::dom::select_in_nth_attrs;
use crate::dom::select_in_nth_cells;
use crate::dom::spec_select_cells;
use crate::dom::spec_select_in_nth_attrs;
use crate::dom::spec_select_in_nth_cells;
use crate::error::TibiaError;
use crate::models::CharacterInfo;
use crate::models::CharacterInfoView;
use crate::models::GuildMember;
use crate::models::GuildMemberView;
use crate::models::House;
use crate::models::HouseView;
use crate::models::Sex;
use crate::models::Vocation;
use crate::num::digit_run_end;
use crate::num::is_digit;
use crate::num::parse_u16_range;
use crate::num::parse_u32_range;
use crate::num::spec_digit_run_end;
use crate::num::spec_is_digit;
use crate::num::spec_parse_u16;
use crate::num::spec_parse_u32;
use crate::sanitize::sanitize_chars;
use crate::sanitize::spec_sanitize;
use crate::text::find_from;
use crate::text::matches_at;
use crate::text::spec_find;
use crate::text::spec_matches_at;
use crate::text::str_eq;
use crate::text::string_from_chars;
use crate::text::sub_chars;
use crate::text::to_chars;
use crate::timeparse::char_pat;
use crate::timeparse::chars_eq_str;
use crate::timeparse::parse_cet_datetime;
use crate::timeparse::parse_month_day_year_nc;
use crate::timeparse::spec_parse_cet_datetime;
use crate::timeparse::spec_parse_month_day_year_nc;

verus! {

/// The pieces of `s` from `pos` on, cut at every `c`.
pub open spec fn spec_split_char_from(s: Seq<char>, c: char, pos: int) -> Seq<Seq<char>>
    decreases s.len() - pos when 0 <= pos <= s.len()
{
    match spec_find(s, seq![c], pos) {
        None => seq![s.subrange(pos, s.len() as int)],
        Some(i) => {
            if pos <= i < s.len() {
                seq![s.subrange(pos, i)] + spec_split_char_from(s, c, i + 1)
            } else {
                seq![s.subrange(pos, s.len() as int)]
            }
        },
    }
}

/// Split at commas and sanitize every piece.
pub fn split_sanitized(s: &Vec<char>, pos: usize) -> (r: Vec<String>)
    requires
        pos <= s@.len(),
    ensures
        ({
            let pieces = spec_split_char_from(s@, ',', pos as int);
            &&& r.deep_view().len() == pieces.len()
            &&& forall|i: int|
                0 <= i < pieces.len() ==> #[trigger] r.deep_view()[i] == spec_sanitize(pieces[i])
        }),
    decreases s@.len() - pos,
{
    let n: usize = s.len();
    assert(n == s@.len());
    let comma = char_pat(',');
    match find_from(s, &comma, pos) {
        None => {
            let piece = sub_chars(s, pos, s.len());
            let sp = sanitize_chars(&piece);
            let mut r: Vec<String> = Vec::new();
            r.push(string_from_chars(&sp));
            proof {
                let pieces = spec_split_char_from(s@, ',', pos as int);
                assert(pieces =~= seq![s@.subrange(pos as int, s@.len() as int)]);
                assert(r.deep_view()[0] == r@[0].deep_view());
            }
            r
        },
        Some(i) => {
            let piece = sub_chars(s, pos, i);
            let sp = sanitize_chars(&piece);
            let x = string_from_chars(&sp);
            let mut rest = split_sanitized(s, i + 1);
            let ghost before = rest.deep_view();
            let ghost beforev = rest@;
            rest.insert(0, x);
            proof {
                let pieces = spec_split_char_from(s@, ',', pos as int);
                let subpieces = spec_split_char_from(s@, ',', i + 1);
                assert(pieces =~= seq![s@.subrange(pos as int, i as int)] + subpieces);
                assert forall|j: int| 0 <= j < pieces.len() implies #[trigger] rest.deep_view()[j]
                    == spec_sanitize(pieces[j]) by {
                    assert(rest.deep_view()[j] == rest@[j].deep_view());
                    if j > 0 {
                        assert(rest@[j] == beforev[j - 1]);
                        assert(beforev[j - 1].deep_view() == before[j - 1]);
                    }
                }
            }
            rest
        },
    }
}

/// The last position where " (" is followed by a digit and a later ")":
/// where a title's "(<n>)" suffix starts.
pub open spec fn spec_title_marker(t: Seq<char>, i: int) -> Option<int>
    decreases i + 1 when i < t.len()
{
    if i < 0 {
        None
    } else if spec_matches_at(t, seq![' ', '('], i) && i + 2 < t.len() && spec_is_digit(t[i + 2])
        && spec_find(t, seq![')'], i + 2) is Some {
        Some(i)
    } else {
        spec_title_marker(t, i - 1)
    }
}

pub fn title_marker(t: &Vec<char>) -> (r: Option<usize>)
    ensures
        match r {
            Some(i) => spec_title_marker(t@, t@.len() - 1) == Some(i as int) && i < t@.len(),
            None => spec_title_marker(t@, t@.len() - 1) is None,
        },
{
    let pat = {
        let mut p: Vec<char> = Vec::new();
        p.push(' ');
        p.push('(');
        proof {
            assert(p@ =~= seq![' ', '(']);
        }
        p
    };
    let rp = char_pat(')');
    let mut j: usize = t.len();
    while j > 0
        invariant
            j <= t@.len(),
            pat@ == seq![' ', '('],
            rp@ == seq![')'],
            spec_title_marker(t@, t@.len() - 1) == spec_title_marker(t@, j - 1),
        decreases j,
    {
        let idx: usize = j - 1;
        if matches_at(t, &pat, idx) && t.len() - idx > 2 && is_digit(t[idx + 2]) && find_from(
            t,
            &rp,
            idx + 2,
        ).is_some() {
            return Some(idx);
        }
        j -= 1;
    }
    None
}

/// The starting record before any header row has been read.
pub open spec fn spec_char_init() -> CharacterInfoView {
    CharacterInfoView {
        name: Seq::empty(),
        former_names: None,
        title: None,
        sex: Sex::Male,
        vocation: None,
        level: 0,
        achievement_points: 0,
        spawn_point: "Yalahar"@,
        world: "Antica"@,
        houses: None,
        guild: None,
        last_login: None,
        comment: None,
        has_premium: false,
    }
}

/// One information row applied to the record collected so far; `key` is the
/// sanitized first text of the first cell, `value` the second cell. The
/// header vocabulary is closed.
pub open spec fn spec_char_field(
    page: Seq<char>,
    r: int,
    key: Seq<char>,
    value: (Seq<char>, Seq<Seq<char>>),
    acc: CharacterInfoView,
) -> Option<CharacterInfoView> {
    if key == "Name:"@ {
        if value.1.len() < 1 {
            None
        } else {
            Some(CharacterInfoView { name: spec_sanitize(value.1[0]), ..acc })
        }
    } else if key == "Former Names:"@ {
        if value.1.len() < 1 {
            None
        } else {
            Some(
                CharacterInfoView {
                    former_names: Some(
                        spec_split_char_from(value.1[0], ',', 0).map_values(
                            |p: Seq<char>| spec_sanitize(p),
                        ),
                    ),
                    ..acc
                },
            )
        }
    } else if key == "Title:"@ {
        if value.1.len() < 1 {
            None
        } else {
            let t = value.1[0];
            match spec_title_marker(t, t.len() - 1) {
                None => None,
                Some(m) => Some(
                    CharacterInfoView { title: Some(spec_sanitize(t.subrange(0, m))), ..acc },
                ),
            }
        }
    } else if key == "Sex:"@ {
        if value.1.len() < 1 {
            None
        } else {
            match Sex::spec_from_str(value.1[0]) {
                None => None,
                Some(sx) => Some(CharacterInfoView { sex: sx, ..acc }),
            }
        }
    } else if key == "Vocation:"@ {
        if value.1.len() < 1 {
            None
        } else {
            match Vocation::spec_from_str(value.1[0]) {
                None => None,
                Some(v) => Some(CharacterInfoView { vocation: Some(v), ..acc }),
            }
        }
    } else if key == "Level:"@ {
        if value.1.len() < 1 {
            None
        } else {
            match spec_parse_u16(value.1[0]) {
                None => None,
                Some(l) => Some(CharacterInfoView { level: l, ..acc }),
            }
        }
    } else if key == "Achievement Points:"@ {
        if value.1.len() < 1 {
            None
        } else {
            match spec_parse_u16(value.1[0]) {
                None => None,
                Some(p) => Some(CharacterInfoView { achievement_points: p, ..acc }),
            }
        }
    } else if key == "Residence:"@ {
        if value.1.len() < 1 || value.1[0].len() == 0 {
            None
        } else {
            Some(CharacterInfoView { spawn_point: spec_sanitize(value.1[0]), ..acc })
        }
    } else if key == "World:"@ {
        if value.1.len() < 1 || value.1[0].len() == 0 {
            None
        } else {
            Some(CharacterInfoView { world: spec_sanitize(value.1[0]), ..acc })
        }
    } else if key == "House:"@ {
        let anchors = spec_select_in_nth_cells(
            page,
            ".main-content .TableContainer table.TableContent tr"@,
            r,
            "td a"@,
        );
        let hrefs = spec_select_in_nth_attrs(
            page,
            ".main-content .TableContainer table.TableContent tr"@,
            r,
            "td a"@,
            "href"@,
        );
        if anchors is None || hrefs is None || anchors->Some_0.len() < 1 || hrefs->Some_0.len()
            < 1 || anchors->Some_0[0].1.len() < 1 || hrefs->Some_0[0] is None {
            None
        } else {
            let href = hrefs->Some_0[0]->Some_0;
            let hid = spec_find(href, "houseid="@, 0);
            if hid is None {
                None
            } else {
                let ds = hid->Some_0 + 8;
                let de = spec_digit_run_end(href, ds);
                match spec_parse_u32(href.subrange(ds, de)) {
                    None => None,
                    Some(id) => {
                        if value.1.len() < 3 {
                            None
                        } else {
                            let v = spec_sanitize(value.1[2]);
                            let lp = spec_find(v, seq!['('], 0);
                            if lp is None {
                                None
                            } else {
                                let rp = spec_find(v, seq![')'], lp->Some_0 + 1);
                                if rp is None || !spec_matches_at(
                                    v,
                                    " is paid until "@,
                                    rp->Some_0 + 1,
                                ) {
                                    None
                                } else {
                                    let town = spec_sanitize(
                                        v.subrange(lp->Some_0 + 1, rp->Some_0),
                                    );
                                    let date_s = spec_sanitize(
                                        v.subrange(rp->Some_0 + 16, v.len() as int),
                                    );
                                    match spec_parse_month_day_year_nc(date_s) {
                                        None => None,
                                        Some(d) => {
                                            let h = HouseView {
                                                id,
                                                name: spec_sanitize(anchors->Some_0[0].1[0]),
                                                paid_until: d,
                                                town,
                                            };
                                            Some(
                                                CharacterInfoView {
                                                    houses: match acc.houses {
                                                        None => Some(seq![h]),
                                                        Some(hs) => Some(hs.push(h)),
                                                    },
                                                    ..acc
                                                },
                                            )
                                        },
                                    }
                                }
                            }
                        }
                    },
                }
            }
        }
    } else if key == "Guild Membership:"@ {
        let anchors = spec_select_in_nth_cells(
            page,
            ".main-content .TableContainer table.TableContent tr"@,
            r,
            "td a"@,
        );
        if anchors is None || anchors->Some_0.len() < 1 || anchors->Some_0[0].1.len() < 1
            || value.1.len() < 1 {
            None
        } else {
            let ofthe = spec_find(value.1[0], " of the"@, 0);
            if ofthe is None {
                None
            } else {
                Some(
                    CharacterInfoView {
                        guild: Some(
                            GuildMemberView {
                                role: spec_sanitize(value.1[0].subrange(0, ofthe->Some_0)),
                                guild_name: spec_sanitize(anchors->Some_0[0].1[0]),
                            },
                        ),
                        ..acc
                    },
                )
            }
        }
    } else if key == "Last Login:"@ {
        if value.1.len() < 1 {
            None
        } else {
            match spec_parse_cet_datetime(spec_sanitize(value.1[0])) {
                None => None,
                Some(dt) => Some(CharacterInfoView { last_login: Some(dt), ..acc }),
            }
        }
    } else if key == "Account Status:"@ {
        if value.1.len() < 1 {
            None
        } else if value.1[0] == "Premium Account"@ {
            Some(CharacterInfoView { has_premium: true, ..acc })
        } else if value.1[0] == "Free Account"@ {
            Some(CharacterInfoView { has_premium: false, ..acc })
        } else {
            None
        }
    } else {
        None
    }
}

/// Walk the information rows from index `r`: each row must hold exactly a
/// header cell and a value cell.
pub open spec fn spec_char_rows(
    page: Seq<char>,
    n: int,
    r: int,
    acc: CharacterInfoView,
) -> Option<CharacterInfoView>
    decreases n - r when 0 <= r <= n
{
    if r >= n {
        Some(acc)
    } else {
        let cells = spec_select_in_nth_cells(
            page,
            ".main-content .TableContainer table.TableContent tr"@,
            r,
            "td"@,
        );
        if cells is None || cells->Some_0.len() != 2 || cells->Some_0[0].1.len() < 1 {
            None
        } else {
            match spec_char_field(
                page,
                r,
                spec_sanitize(cells->Some_0[0].1[0]),
                cells->Some_0[1],
                acc,
            ) {
                None => None,
                Some(acc2) => spec_char_rows(page, n, r + 1, acc2),
            }
        }
    }
}

/// What character extraction yields: the maintenance sentinel wins; a page
/// with no listing table at all is an unknown character; otherwise the
/// two-cell rows of the first listing table.
pub open spec fn spec_parse_character_page(page: Seq<char>) -> Result<
    Option<CharacterInfoView>,
    TibiaError,
> {
    if spec_is_maintenance_page(page) {
        Err(TibiaError::Maintenance)
    } else {
        let mc = spec_select_cells(page, ".main-content"@);
        let tables = spec_select_cells(page, ".main-content .TableContainer table.TableContent"@);
        if mc is None || mc->Some_0.len() == 0 || tables is None {
            Err(TibiaError::UnexpectedPageContent)
        } else if tables->Some_0.len() == 0 {
            Ok(None)
        } else {
            let rows = spec_select_in_nth_cells(
                page,
                ".main-content .TableContainer table.TableContent"@,
                0,
                "tr"@,
            );
            if rows is None {
                Err(TibiaError::UnexpectedPageContent)
            } else {
                match spec_char_rows(page, rows->Some_0.len() as int, 0, spec_char_init()) {
                    None => Err(TibiaError::UnexpectedPageContent),
                    Some(c) => Ok(Some(c)),
                }
            }
        }
    }
}

/// Extract one character's sheet; `Ok(None)` is the unknown-character
/// shape.
#[verifier::loop_isolation(false)]
#[verifier::rlimit(100)]
pub fn parse_character_page(page: &str) -> (r: Result<Option<CharacterInfo>, TibiaError>)
    ensures
        match r {
            Ok(Some(c)) => spec_parse_character_page(page@) == Ok::<_, TibiaError>(Some(c@)),
            Ok(None) => spec_parse_character_page(page@) == Ok::<
                Option<CharacterInfoView>,
                TibiaError,
            >(None),
            Err(e) => spec_parse_character_page(page@) == Err::<
                Option<CharacterInfoView>,
                TibiaError,
            >(e),
        },
{
    proof {
        reveal_strlit("houseid=");
        reveal_strlit(" is paid until ");
        reveal_strlit(" of the");
        reveal_strlit("Yalahar");
        reveal_strlit("Antica");
    }
    if is_maintenance_page(page) {
        return Err(TibiaError::Maintenance);
    }
    let mc = match select_cells(page, ".main-content") {
        Some(t) => t,
        None => {
            return Err(TibiaError::UnexpectedPageContent);
        },
    };
    let tables = match select_cells(page, ".main-content .TableContainer table.TableContent") {
        Some(t) => t,
        None => {
            return Err(TibiaError::UnexpectedPageContent);
        },
    };
    if mc.len() == 0 {
        return Err(TibiaError::UnexpectedPageContent);
    }
    if tables.len() == 0 {
        return Ok(None);
    }
    let rows = match select_in_nth_cells(
        page,
        ".main-content .TableContainer table.TableContent",
        0,
        "tr",
    ) {
        Some(t) => t,
        None => {
            return Err(TibiaError::UnexpectedPageContent);
        },
    };
    let n: usize = rows.len();
    let mut info = CharacterInfo {
        name: String::new(),
        former_names: None,
        title: None,
        sex: Sex::Male,
        vocation: None,
        level: 0,
        achievement_points: 0,
        spawn_point: "Yalahar".to_owned(),
        world: "Antica".to_owned(),
        houses: None,
        guild: None,
        last_login: None,
        comment: None,
        has_premium: false,
    };
    let mut houses_acc: Vec<House> = Vec::new();
    let mut has_house: bool = false;
    proof {
        assert(info@ == spec_char_init());
    }
    let mut r: usize = 0;
    while r < n
        invariant
            r <= n,
            n == rows@.len(),
            info@.houses is None,
            !has_house ==> houses_acc@.len() == 0,
            spec_char_rows(page@, n as int, 0, spec_char_init()) == spec_char_rows(
                page@,
                n as int,
                r as int,
                CharacterInfoView {
                    houses: if has_house {
                        Some(houses_acc.deep_view())
                    } else {
                        None
                    },
                    ..info@
                },
            ),
        decreases n - r,
    {
        let cells = match select_in_nth_cells(
            page,
            ".main-content .TableContainer table.TableContent tr",
            r,
            "td",
        ) {
            Some(c) => c,
            None => {
                return Err(TibiaError::UnexpectedPageContent);
            },
        };
        if cells.len() != 2 || cells[0].1.len() < 1 {
            proof {
                if cells@.len() >= 1 {
                    assert(cells.deep_view()[0] == cells@[0].deep_view());
                }
            }
            return Err(TibiaError::UnexpectedPageContent);
        }
        proof {
            assert(cells.deep_view()[0] == cells@[0].deep_view());
            assert(cells.deep_view()[1] == cells@[1].deep_view());
            assert(cells.deep_view()[0].1[0] == cells@[0].1@[0].deep_view());
        }
        let key_c = to_chars(cells[0].1[0].as_str());
        let key = sanitize_chars(&key_c);
        let ghost gkey = spec_sanitize(cells.deep_view()[0].1[0]);
        let ghost gvalue = cells.deep_view()[1];
        let ghost before = CharacterInfoView {
            houses: if has_house {
                Some(houses_acc.deep_view())
            } else {
                None
            },
            ..info@
        };
        let vtexts = &cells[1].1;
        if chars_eq_str(&key, "Name:") {
            if vtexts.len() < 1 {
                return Err(TibiaError::UnexpectedPageContent);
            }
            proof {
                assert(gvalue.1[0] == vtexts@[0].deep_view());
            }
            let vc = to_chars(vtexts[0].as_str());
            let sv = sanitize_chars(&vc);
            info.name = string_from_chars(&sv);
        } else if chars_eq_str(&key, "Former Names:") {
            if vtexts.len() < 1 {
                return Err(TibiaError::UnexpectedPageContent);
            }
            proof {
                assert(gvalue.1[0] == vtexts@[0].deep_view());
            }
            let vc = to_chars(vtexts[0].as_str());
            let pieces = split_sanitized(&vc, 0);
            proof {
                assert(pieces.deep_view() =~= spec_split_char_from(gvalue.1[0], ',', 0).map_values(
                    |p: Seq<char>| spec_sanitize(p),
                ));
            }
            info.former_names = Some(pieces);
        } else if chars_eq_str(&key, "Title:") {
            if vtexts.len() < 1 {
                return Err(TibiaError::UnexpectedPageContent);
            }
            proof {
                assert(gvalue.1[0] == vtexts@[0].deep_view());
            }
            let vc = to_chars(vtexts[0].as_str());
            let m: usize = match title_marker(&vc) {
                Some(m) => m,
                None => {
                    return Err(TibiaError::UnexpectedPageContent);
                },
            };
            let pre = sub_chars(&vc, 0, m);
            let sv = sanitize_chars(&pre);
            info.title = Some(string_from_chars(&sv));
        } else if chars_eq_str(&key, "Sex:") {
            if vtexts.len() < 1 {
                return Err(TibiaError::UnexpectedPageContent);
            }
            proof {
                assert(gvalue.1[0] == vtexts@[0].deep_view());
            }
            match Sex::from_str(vtexts[0].as_str()) {
                Ok(sx) => {
                    info.sex = sx;
                },
                Err(_) => {
                    return Err(TibiaError::UnexpectedPageContent);
                },
            }
        } else if chars_eq_str(&key, "Vocation:") {
            if vtexts.len() < 1 {
                return Err(TibiaError::UnexpectedPageContent);
            }
            proof {
                assert(gvalue.1[0] == vtexts@[0].deep_view());
            }
            match Vocation::from_str(vtexts[0].as_str()) {
                Ok(v) => {
                    info.vocation = Some(v);
                },
                Err(_) => {
                    return Err(TibiaError::UnexpectedPageContent);
                },
            }
        } else if chars_eq_str(&key, "Level:") {
            if vtexts.len() < 1 {
                return Err(TibiaError::UnexpectedPageContent);
            }
            proof {
                assert(gvalue.1[0] == vtexts@[0].deep_view());
            }
            let vc = to_chars(vtexts[0].as_str());
            assert(vc@.subrange(0, vc@.len() as int) =~= vc@);
            match parse_u16_range(&vc, 0, vc.len()) {
                Some(l) => {
                    info.level = l;
                },
                None => {
                    return Err(TibiaError::UnexpectedPageContent);
                },
            }
        } else if chars_eq_str(&key, "Achievement Points:") {
            if vtexts.len() < 1 {
                return Err(TibiaError::UnexpectedPageContent);
            }
            proof {
                assert(gvalue.1[0] == vtexts@[0].deep_view());
            }
            let vc = to_chars(vtexts[0].as_str());
            assert(vc@.subrange(0, vc@.len() as int) =~= vc@);
            match parse_u16_range(&vc, 0, vc.len()) {
                Some(p) => {
                    info.achievement_points = p;
                },
                None => {
                    return Err(TibiaError::UnexpectedPageContent);
                },
            }
        } else if chars_eq_str(&key, "Residence:") {
            if vtexts.len() < 1 {
                return Err(TibiaError::UnexpectedPageContent);
            }
            proof {
                assert(gvalue.1[0] == vtexts@[0].deep_view());
            }
            let vc = to_chars(vtexts[0].as_str());
            if vc.len() == 0 {
                return Err(TibiaError::UnexpectedPageContent);
            }
            let sv = sanitize_chars(&vc);
            info.spawn_point = string_from_chars(&sv);
        } else if chars_eq_str(&key, "World:") {
            if vtexts.len() < 1 {
                return Err(TibiaError::UnexpectedPageContent);
            }
            proof {
                assert(gvalue.1[0] == vtexts@[0].deep_view());
            }
            let vc = to_chars(vtexts[0].as_str());
            if vc.len() == 0 {
                return Err(TibiaError::UnexpectedPageContent);
            }
            let sv = sanitize_chars(&vc);
            info.world = string_from_chars(&sv);
        } else if chars_eq_str(&key, "House:") {
            let anchors = match select_in_nth_cells(
                page,
                ".main-content .TableContainer table.TableContent tr",
                r,
                "td a",
            ) {
                Some(a) => a,
                None => {
                    return Err(TibiaError::UnexpectedPageContent);
                },
            };
            let hrefs = match select_in_nth_attrs(
                page,
                ".main-content .TableContainer table.TableContent tr",
                r,
                "td a",
                "href",
            ) {
                Some(h) => h,
                None => {
                    return Err(TibiaError::UnexpectedPageContent);
                },
            };
            if anchors.len() < 1 || hrefs.len() < 1 {
                return Err(TibiaError::UnexpectedPageContent);
            }
            proof {
                assert(anchors.deep_view()[0] == anchors@[0].deep_view());
                assert(hrefs.deep_view()[0] == hrefs@[0].deep_view());
            }
            if anchors[0].1.len() < 1 {
                return Err(TibiaError::UnexpectedPageContent);
            }
            proof {
                assert(anchors.deep_view()[0].1[0] == anchors@[0].1@[0].deep_view());
            }
            let href: String = match &hrefs[0] {
                Some(h) => h.clone(),
                None => {
                    return Err(TibiaError::UnexpectedPageContent);
                },
            };
            let hc = to_chars(href.as_str());
            let hlen: usize = hc.len();
            let hid: usize = match find_from(&hc, &to_chars("houseid="), 0) {
                Some(i) => i,
                None => {
                    return Err(TibiaError::UnexpectedPageContent);
                },
            };
            let ds: usize = hid + 8;
            let de: usize = digit_run_end(&hc, ds);
            let id: u32 = match parse_u32_range(&hc, ds, de) {
                Some(v) => v,
                None => {
                    return Err(TibiaError::UnexpectedPageContent);
                },
            };
            if vtexts.len() < 3 {
                return Err(TibiaError::UnexpectedPageContent);
            }
            proof {
                assert(gvalue.1[2] == vtexts@[2].deep_view());
            }
            let vc = to_chars(vtexts[2].as_str());
            let v = sanitize_chars(&vc);
            let vlen: usize = v.len();
            let lp: usize = match find_from(&v, &char_pat('('), 0) {
                Some(i) => i,
                None => {
                    return Err(TibiaError::UnexpectedPageContent);
                },
            };
            let rp: usize = match find_from(&v, &char_pat(')'), lp + 1) {
                Some(i) => i,
                None => {
                    return Err(TibiaError::UnexpectedPageContent);
                },
            };
            if !matches_at(&v, &to_chars(" is paid until "), rp + 1) {
                return Err(TibiaError::UnexpectedPageContent);
            }
            let town_c = sub_chars(&v, lp + 1, rp);
            let town_s = sanitize_chars(&town_c);
            let date_c = sub_chars(&v, rp + 16, v.len());
            let date_s = sanitize_chars(&date_c);
            let d = match parse_month_day_year_nc(&date_s) {
                Some(d) => d,
                None => {
                    return Err(TibiaError::UnexpectedPageContent);
                },
            };
            let name_c = to_chars(anchors[0].1[0].as_str());
            let name_s = sanitize_chars(&name_c);
            let ghost prevh = houses_acc.deep_view();
            let ghost hh_old = has_house;
            houses_acc.push(
                House {
                    id,
                    name: string_from_chars(&name_s),
                    paid_until: d,
                    town: string_from_chars(&town_s),
                },
            );
            has_house = true;
            proof {
                let h = HouseView {
                    id: id,
                    name: spec_sanitize(anchors.deep_view()[0].1[0]),
                    paid_until: d,
                    town: spec_sanitize(v@.subrange(lp + 1, rp as int)),
                };
                assert(houses_acc.deep_view() =~= prevh.push(h));
                if !hh_old {
                    assert(prevh.len() == 0);
                    assert(prevh.push(h) =~= seq![h]);
                }
            }
        } else if chars_eq_str(&key, "Guild Membership:") {
            let anchors = match select_in_nth_cells(
                page,
                ".main-content .TableContainer table.TableContent tr",
                r,
                "td a",
            ) {
                Some(a) => a,
                None => {
                    return Err(TibiaError::UnexpectedPageContent);
                },
            };
            if anchors.len() < 1 {
                return Err(TibiaError::UnexpectedPageContent);
            }
            proof {
                assert(anchors.deep_view()[0] == anchors@[0].deep_view());
            }
            if anchors[0].1.len() < 1 || vtexts.len() < 1 {
                return Err(TibiaError::UnexpectedPageContent);
            }
            proof {
                assert(anchors.deep_view()[0].1[0] == anchors@[0].1@[0].deep_view());
                assert(gvalue.1[0] == vtexts@[0].deep_view());
            }
            let role_c = to_chars(vtexts[0].as_str());
            let ofthe: usize = match find_from(&role_c, &to_chars(" of the"), 0) {
                Some(i) => i,
                None => {
                    return Err(TibiaError::UnexpectedPageContent);
                },
            };
            let role_pre = sub_chars(&role_c, 0, ofthe);
            let role_s = sanitize_chars(&role_pre);
            let gname_c = to_chars(anchors[0].1[0].as_str());
            let gname_s = sanitize_chars(&gname_c);
            info.guild = Some(
                GuildMember {
                    role: string_from_chars(&role_s),
                    guild_name: string_from_chars(&gname_s),
                },
            );
        } else if chars_eq_str(&key, "Last Login:") {
            if vtexts.len() < 1 {
                return Err(TibiaError::UnexpectedPageContent);
            }
            proof {
                assert(gvalue.1[0] == vtexts@[0].deep_view());
            }
            let vc = to_chars(vtexts[0].as_str());
            let sv = sanitize_chars(&vc);
            match parse_cet_datetime(&sv) {
                Some(dt) => {
                    info.last_login = Some(dt);
                },
                None => {
                    return Err(TibiaError::UnexpectedPageContent);
                },
            }
        } else if chars_eq_str(&key, "Account Status:") {
            if vtexts.len() < 1 {
                return Err(TibiaError::UnexpectedPageContent);
            }
            proof {
                assert(gvalue.1[0] == vtexts@[0].deep_view());
            }
            if str_eq(vtexts[0].as_str(), "Premium Account") {
                info.has_premium = true;
            } else if str_eq(vtexts[0].as_str(), "Free Account") {
                info.has_premium = false;
            } else {
                return Err(TibiaError::UnexpectedPageContent);
            }
        } else {
            return Err(TibiaError::UnexpectedPageContent);
        }
        proof {
            let after = CharacterInfoView {
                houses: if has_house {
                    Some(houses_acc.deep_view())
                } else {
                    None
                },
                ..info@
            };
            assert(spec_char_field(page@, r as int, gkey, gvalue, before) == Some(after));
        }
        r += 1;
    }
    if has_house {
        info.houses = Some(houses_acc);
        return Ok(Some(info));
    }
    Ok(Some(info))
}

} // verus!
