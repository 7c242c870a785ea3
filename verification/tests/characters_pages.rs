//! Character extraction: the closed header vocabulary of the information
//! table, and the structurally-empty unknown-character shape.

use tibia_api::character::parse_character_page;
use tibia_api::error::TibiaError;
use tibia_api::models::Sex;
use tibia_api::models::Vocation;
use tibia_api::time::CalendarDate;
use tibia_api::time::UtcDateTime;

fn character_page() -> String {
    let rows = "<tr><td>Name:</td><td>Glada Pojken</td></tr>\
        <tr><td>Former Names:</td><td>Max Lurifax, Top Minimum</td></tr>\
        <tr><td>Title:</td><td>Dream Warden (23)</td></tr>\
        <tr><td>Sex:</td><td>male</td></tr>\
        <tr><td>Vocation:</td><td>Knight</td></tr>\
        <tr><td>Level:</td><td>52</td></tr>\
        <tr><td>Achievement Points:</td><td>263</td></tr>\
        <tr><td>Residence:</td><td>Thais</td></tr>\
        <tr><td>World:</td><td>Antica</td></tr>\
        <tr><td>House:</td><td><a href=\"?houseid=1025&amp;character=x\">Coastwood 1</a> <br>(Edron) is paid until Sep 08 2023</td></tr>\
        <tr><td>Guild Membership:</td><td>Leader of the <a href=\"#\">Hill</a></td></tr>\
        <tr><td>Last Login:</td><td>Nov 28 2023, 19:26:00 CET</td></tr>\
        <tr><td>Account Status:</td><td>Premium Account</td></tr>";
    format!(
        "<html><head><title>Tibia - Characters</title></head><body><div class=\"main-content\">\
         <div class=\"TableContainer\"><table class=\"TableContent\">{rows}</table></div>\
         </div></body></html>"
    )
}

#[test]
fn can_get_character_info() {
    let page = character_page();
    let c = parse_character_page(&page).unwrap().unwrap();
    assert_eq!(c.name, "Glada Pojken");
    assert_eq!(
        c.former_names,
        Some(vec!["Max Lurifax".to_string(), "Top Minimum".to_string()])
    );
    assert_eq!(c.title.as_deref(), Some("Dream Warden"));
    assert_eq!(c.sex, Sex::Male);
    assert_eq!(c.vocation, Some(Vocation::Knight));
    assert_eq!(c.level, 52);
    assert_eq!(c.achievement_points, 263);
    assert_eq!(c.spawn_point, "Thais");
    assert_eq!(c.world, "Antica");

    let houses = c.houses.unwrap();
    assert_eq!(houses.len(), 1);
    assert_eq!(houses[0].id, 1025);
    assert_eq!(houses[0].name, "Coastwood 1");
    assert_eq!(houses[0].town, "Edron");
    assert_eq!(houses[0].paid_until, CalendarDate { year: 2023, month: 9, day: 8 });

    let guild = c.guild.unwrap();
    assert_eq!(guild.role, "Leader");
    assert_eq!(guild.guild_name, "Hill");

    assert_eq!(
        c.last_login,
        Some(UtcDateTime { year: 2023, month: 11, day: 28, hour: 18, minute: 26, second: 0 })
    );
    assert!(c.has_premium);
    assert_eq!(c.comment, None);
}

#[test]
fn returns_404_for_invalid_character() {
    // The unknown-character shape: no listing table at all.
    let page = "<html><head><title>Tibia - Characters</title></head><body>\
        <div class=\"main-content\"><p>Character does not exist.</p></div></body></html>";
    assert_eq!(parse_character_page(page).unwrap(), None);
}

#[test]
fn an_unknown_key_fails_loudly() {
    let page = "<html><head><title>Tibia - Characters</title></head><body>\
        <div class=\"main-content\"><div class=\"TableContainer\">\
        <table class=\"TableContent\"><tr><td>Shoe Size:</td><td>44</td></tr></table>\
        </div></div></body></html>";
    assert_eq!(parse_character_page(page), Err(TibiaError::UnexpectedPageContent));
}

#[test]
fn a_free_account_reads_as_no_premium() {
    let page = "<html><head><title>Tibia - Characters</title></head><body>\
        <div class=\"main-content\"><div class=\"TableContainer\">\
        <table class=\"TableContent\">\
        <tr><td>Name:</td><td>Bobeek</td></tr>\
        <tr><td>Account Status:</td><td>Free Account</td></tr>\
        </table></div></div></body></html>";
    let c = parse_character_page(page).unwrap().unwrap();
    assert_eq!(c.name, "Bobeek");
    assert!(!c.has_premium);
}
