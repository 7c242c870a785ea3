//! Worlds-overview extraction over a snapshot-shaped page.

use tibia_api::models::GameWorldType;
use tibia_api::models::Location;
use tibia_api::models::PvpType;
use tibia_api::models::TransferType;
use tibia_api::time::CalendarDate;
use tibia_api::time::UtcDateTime;
use tibia_api::worlds::parse_worlds_page;

fn worlds_page() -> String {
    let record = "<b>Players Online Record:</b> 64,028 players (on Nov 28 2007, 19:26:00 CET)";
    let antica = "<tr class=\"Odd\">\
        <td><a href=\"?world=Antica\">Antica</a></td>\
        <td>1,337</td>\
        <td>Europe</td>\
        <td>Open PvP</td>\
        <td><div class=\"HelperDivIndicator\" onmouseover=\"show('&lt;p&gt;Protected by BattlEye since August 29, 2017.&lt;/p&gt;')\">x</div></td>\
        <td>blocked, premium</td></tr>";
    let secura = "<tr class=\"Even\">\
        <td><a href=\"?world=Secura\">Secura</a></td>\
        <td>263</td>\
        <td>North America</td>\
        <td>Optional PvP</td>\
        <td><div class=\"HelperDivIndicator\" onmouseover=\"show('&lt;p&gt;Protected since release.&lt;/p&gt;')\">x</div></td>\
        <td>experimental</td></tr>";
    format!(
        "<html><head><title>Tibia - Worlds</title></head><body><div class=\"main-content\">\
         <div class=\"TableContent\">{record}</div>\
         <div class=\"TableContent\">legend</div>\
         <table class=\"TableContent\">{antica}{secura}</table>\
         </div></body></html>"
    )
}

#[test]
fn it_can_parse_worlds() {
    let page = worlds_page();
    let w = parse_worlds_page(&page).unwrap();
    assert_eq!(w.record_players, 64_028);
    assert_eq!(
        w.record_date,
        UtcDateTime { year: 2007, month: 11, day: 28, hour: 18, minute: 26, second: 0 }
    );
    assert_eq!(w.worlds.len(), 2);
    assert_eq!(w.players_online_total, 1_337 + 263);

    let antica = &w.worlds[0];
    assert_eq!(antica.name, "Antica");
    assert_eq!(antica.players_online_count, 1_337);
    assert_eq!(antica.location, Location::Europe);
    assert_eq!(antica.pvp_type, PvpType::Open);
    assert!(antica.battl_eye);
    assert_eq!(antica.battl_eye_date, Some(CalendarDate { year: 2017, month: 8, day: 29 }));
    assert!(antica.premium_required);
    assert_eq!(antica.transfer_type, Some(TransferType::Blocked));
    assert_eq!(antica.game_world_type, GameWorldType::Regular);

    let secura = &w.worlds[1];
    assert_eq!(secura.name, "Secura");
    assert_eq!(secura.location, Location::NorthAmerica);
    assert!(secura.battl_eye);
    assert_eq!(secura.battl_eye_date, None);
    assert!(!secura.premium_required);
    assert_eq!(secura.transfer_type, None);
    assert_eq!(secura.game_world_type, GameWorldType::Experimental);
}

#[test]
fn a_battl_eye_date_comes_only_with_battl_eye_enabled() {
    let page = worlds_page();
    let w = parse_worlds_page(&page).unwrap();
    for world in &w.worlds {
        if world.battl_eye_date.is_some() {
            assert!(world.battl_eye);
        }
    }
}

#[test]
fn worlds_maintenance_wins() {
    let page = "<html><head><title>Tibia - Free Multiplayer Online Role Playing Game - Maintenance\
                </title></head><body></body></html>";
    assert!(matches!(
        parse_worlds_page(page),
        Err(tibia_api::error::TibiaError::Maintenance)
    ));
}
