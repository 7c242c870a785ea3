//! Guild extraction: exactly two tables, founded guilds first.

use tibia_api::error::TibiaError;
use tibia_api::guilds::parse_guilds_page;

fn guilds_page() -> String {
    let active = "<table class=\"TableContent\">\
        <tr><td>Logo</td><td>Description</td><td></td></tr>\
        <tr><td><img src=\"https://static.example/hill.gif\"></td><td>Hill<br>The first guild.</td><td></td></tr>\
        <tr><td><img src=\"https://static.example/moon.gif\"></td><td>Moonlight</td><td></td></tr>\
        </table>";
    let formation = "<table class=\"TableContent\">\
        <tr><td>Logo</td><td>Description</td><td></td></tr>\
        <tr><td></td><td>Newcomers</td><td></td></tr>\
        </table>";
    format!(
        "<html><head><title>Tibia - Guilds</title></head><body><div class=\"main-content\">\
         <div class=\"TableContainer\">{active}</div>\
         <div class=\"TableContainer\">{formation}</div>\
         </div></body></html>"
    )
}

#[test]
fn can_get_guilds() {
    let page = guilds_page();
    let guilds = parse_guilds_page(&page).unwrap();
    assert_eq!(guilds.len(), 3);

    assert_eq!(guilds[0].name, "Hill");
    assert_eq!(guilds[0].logo.as_deref(), Some("https://static.example/hill.gif"));
    assert_eq!(guilds[0].description.as_deref(), Some("The first guild."));
    assert!(guilds[0].active);

    assert_eq!(guilds[1].name, "Moonlight");
    assert_eq!(guilds[1].description, None);
    assert!(guilds[1].active);

    assert_eq!(guilds[2].name, "Newcomers");
    assert_eq!(guilds[2].logo, None);
    assert!(!guilds[2].active);
}

#[test]
fn worlds_world_name_guilds_returns_404_for_invalid_world() {
    // The fallback page carries a single listing table, not two.
    let page = "<html><head><title>Tibia - Guilds</title></head><body>\
        <div class=\"main-content\"><div class=\"TableContainer\">\
        <table class=\"TableContent\"><tr><td>World selection</td></tr></table>\
        </div></div></body></html>";
    assert_eq!(parse_guilds_page(page), Err(TibiaError::NotFound));
}

#[test]
fn worlds_world_name_guilds_sends_503_when_maintenance() {
    let page = "<html><head><title>Tibia - Free Multiplayer Online Role Playing Game - Maintenance\
                </title></head><body></body></html>";
    assert_eq!(parse_guilds_page(page), Err(TibiaError::Maintenance));
}
