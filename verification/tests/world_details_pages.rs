//! World-details extraction: the header/value information table, the
//! players-online tuples, and the unknown-world shape.

use tibia_api::error::TibiaError;
use tibia_api::models::GameWorldType;
use tibia_api::models::Location;
use tibia_api::models::PvpType;
use tibia_api::models::TransferType;
use tibia_api::models::Vocation;
use tibia_api::time::CalendarDate;
use tibia_api::time::UtcDateTime;
use tibia_api::world_details::parse_world_details_page;

fn details_page() -> String {
    let info = "<table>\
        <tr><td>Status:</td><td>Online</td></tr>\
        <tr><td>Players Online:</td><td>1,052</td></tr>\
        <tr><td>Online Record:</td><td>1,211 players (on Nov 28 2007, 19:26:00 CET)</td></tr>\
        <tr><td>Creation Date:</td><td>October 2020</td></tr>\
        <tr><td>Location:</td><td>Europe</td></tr>\
        <tr><td>PvP Type:</td><td>Open PvP</td></tr>\
        <tr><td>World Quest Titles:</td><td><a href=\"#\">Rise of Devovorga</a>, <a href=\"#\">The Lightbearer</a></td></tr>\
        <tr><td>BattlEye Status:</td><td>Protected by BattlEye since August 29, 2017.</td></tr>\
        <tr><td>Transfer Type:</td><td>blocked</td></tr>\
        <tr><td>Premium Type:</td><td>premium</td></tr>\
        <tr><td>Game World Type:</td><td>Regular</td></tr>\
        </table>";
    let players = "<table>\
        <tr class=\"Odd\"><td>Urinchoklad</td><td>52</td><td>Knight</td></tr>\
        <tr class=\"Even\"><td>Glada Pojken</td><td>8</td><td>None</td></tr>\
        </table>";
    format!(
        "<html><head><title>Tibia - Worlds</title></head><body><div class=\"main-content\">\
         <div class=\"InnerTableContainer\"><table><tr><td>selector form</td></tr></table></div>\
         <div class=\"InnerTableContainer\">{info}</div>\
         <div class=\"InnerTableContainer\">{players}</div>\
         </div></body></html>"
    )
}

#[test]
fn it_can_parse_world_details() {
    let page = details_page();
    let d = parse_world_details_page(&page, "Antica").unwrap().unwrap();
    assert_eq!(d.name, "Antica");
    assert!(d.is_online);
    assert_eq!(d.players_online_count, 1_052);
    assert_eq!(d.players_online_record, 1_211);
    assert_eq!(
        d.players_online_record_date,
        UtcDateTime { year: 2007, month: 11, day: 28, hour: 18, minute: 26, second: 0 }
    );
    assert_eq!(d.creation_date, CalendarDate { year: 2020, month: 10, day: 1 });
    assert_eq!(d.location, Location::Europe);
    assert_eq!(d.pvp_type, PvpType::Open);
    assert_eq!(
        d.world_quest_titles,
        vec!["Rise of Devovorga".to_string(), "The Lightbearer".to_string()]
    );
    assert!(d.battl_eye);
    assert_eq!(d.battl_eye_date, Some(CalendarDate { year: 2017, month: 8, day: 29 }));
    assert_eq!(d.transfer_type, Some(TransferType::Blocked));
    assert!(d.premium_required);
    assert_eq!(d.game_world_type, GameWorldType::Regular);

    assert_eq!(d.players_online.len(), 2);
    assert_eq!(d.players_online[0].name, "Urinchoklad");
    assert_eq!(d.players_online[0].level, 52);
    assert_eq!(d.players_online[0].vocation, Some(Vocation::Knight));
    assert_eq!(d.players_online[1].name, "Glada Pojken");
    assert_eq!(d.players_online[1].vocation, None);
}

#[test]
fn it_returns_not_found_for_invalid_worlds() {
    // The unknown-world shape: a single inner table container.
    let page = "<html><head><title>Tibia - Worlds</title></head><body>\
         <div class=\"main-content\">\
         <div class=\"InnerTableContainer\"><table><tr><td>selector form</td></tr></table></div>\
         </div></body></html>";
    assert_eq!(parse_world_details_page(page, "Xyzzy").ok(), Some(None));
}

#[test]
fn an_unknown_header_fails_loudly() {
    let page = "<html><head><title>Tibia - Worlds</title></head><body>\
         <div class=\"main-content\">\
         <div class=\"InnerTableContainer\"><table><tr><td>x</td></tr></table></div>\
         <div class=\"InnerTableContainer\"><table>\
         <tr><td>Moon Phase:</td><td>full</td></tr></table></div>\
         <div class=\"InnerTableContainer\"><table></table></div>\
         </div></body></html>";
    assert_eq!(
        parse_world_details_page(page, "Antica"),
        Err(TibiaError::UnexpectedPageContent)
    );
}

#[test]
fn an_unknown_vocation_fails_loudly() {
    let page = "<html><head><title>Tibia - Worlds</title></head><body>\
         <div class=\"main-content\">\
         <div class=\"InnerTableContainer\"><table><tr><td>x</td></tr></table></div>\
         <div class=\"InnerTableContainer\"><table>\
         <tr><td>Players Online:</td><td>1</td></tr></table></div>\
         <div class=\"InnerTableContainer\"><table>\
         <tr class=\"Odd\"><td>Someone</td><td>10</td><td>Jester</td></tr>\
         </table></div>\
         </div></body></html>";
    assert_eq!(
        parse_world_details_page(page, "Antica"),
        Err(TibiaError::UnexpectedPageContent)
    );
}
