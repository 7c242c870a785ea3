//! Residence extraction and status classification.

use tibia_api::error::TibiaError;
use tibia_api::models::ResidenceStatus;
use tibia_api::models::ResidenceType;
use tibia_api::residences::classify_residence_status;
use tibia_api::residences::parse_residences_page;
use tibia_api::text::to_chars;
use tibia_api::time::UtcDateTime;

// 2023-11-14T22:13:20Z.
const NOW: u64 = 1700000000;

fn residences_page(town: &str, world: &str, rows: &str) -> String {
    format!(
        "<html><head><title>Tibia - Houses</title></head><body><div class=\"main-content\">\
         <div class=\"Text\">Available Houses in {town} on {world}</div>\
         <div class=\"TableContainer\"><table class=\"TableContent\">\
         <tr><td>Name</td><td>Size</td><td>Rent</td><td>Status</td></tr>{rows}</table></div>\
         <div class=\"TableContainer\"><table class=\"TableContent\">\
         <tr><td>filter form</td></tr></table></div>\
         <div class=\"TableContainer\"><table class=\"TableContent\">\
         <tr><td><input name=\"town\" value=\"Edron\"><input name=\"town\" value=\"Thais\"></td></tr>\
         </table></div>\
         </div></body></html>"
    )
}

#[test]
fn can_get_residences() {
    let rows = "<tr><td><input name=\"houseid\" value=\"1025\">Coastwood 1</td>\
        <td>16 sqm</td><td>50k gold</td><td>rented</td></tr>\
        <tr><td><input name=\"houseid\" value=\"1026\">Coastwood 2</td>\
        <td>24 sqm</td><td>60k gold</td><td>auctioned (no bid yet)</td></tr>\
        <tr><td><input name=\"houseid\" value=\"1027\">Coastwood 3</td>\
        <td>32 sqm</td><td>80k gold</td><td>auctioned (200 gold, 2 days left)</td></tr>";
    let page = residences_page("Edron", "Jaguna", rows);
    let rs = parse_residences_page(&page, "Jaguna", ResidenceType::House, "Edron", NOW).unwrap();
    assert_eq!(rs.len(), 3);

    assert_eq!(rs[0].id, 1025);
    assert_eq!(rs[0].town, "Edron");
    assert_eq!(rs[0].name, "Coastwood 1");
    assert_eq!(rs[0].size, 16);
    assert_eq!(rs[0].rent, 50_000);
    assert!(matches!(rs[0].status, ResidenceStatus::Rented));

    assert!(matches!(rs[1].status, ResidenceStatus::AuctionNoBid));

    match rs[2].status {
        ResidenceStatus::AuctionWithBid { bid, expiry_time } => {
            assert_eq!(bid, 200);
            assert_eq!(
                expiry_time,
                UtcDateTime { year: 2023, month: 11, day: 16, hour: 8, minute: 0, second: 0 }
            );
        },
        _ => panic!("expected a running auction"),
    }
}

#[test]
fn an_empty_results_table_is_no_error() {
    let rows = "<tr><td>No houses found.</td></tr>";
    let page = residences_page("Edron", "Jaguna", rows);
    let rs = parse_residences_page(&page, "Jaguna", ResidenceType::House, "Edron", NOW).unwrap();
    assert_eq!(rs.len(), 0);
}

#[test]
fn worlds_world_name_residences_returns_404_for_invalid_world() {
    // The heading names another world than the requested one.
    let page = residences_page("Edron", "Jaguna", "");
    assert_eq!(
        parse_residences_page(&page, "Xyzzy", ResidenceType::House, "Edron", NOW),
        Err(TibiaError::NotFound)
    );
}

#[test]
fn returns_404_for_invalid_town() {
    let page = residences_page("Edron", "Jaguna", "");
    assert_eq!(
        parse_residences_page(&page, "Jaguna", ResidenceType::House, "invalid_town", NOW),
        Err(TibiaError::NotFound)
    );
}

#[test]
fn returns_404_for_a_town_missing_from_the_towns_table() {
    // The heading happens to carry the sentence, but the towns table does
    // not list the requested town.
    let page = residences_page("Carlin", "Jaguna", "");
    assert_eq!(
        parse_residences_page(&page, "Jaguna", ResidenceType::House, "Carlin", NOW),
        Err(TibiaError::NotFound)
    );
}

#[test]
fn status_rented() {
    assert!(matches!(
        classify_residence_status(&to_chars("rented"), NOW),
        Some(ResidenceStatus::Rented)
    ));
}

#[test]
fn status_auction_no_bid() {
    assert!(matches!(
        classify_residence_status(&to_chars("auctioned (no bid yet)"), NOW),
        Some(ResidenceStatus::AuctionNoBid)
    ));
}

#[test]
fn status_auction_finished() {
    match classify_residence_status(&to_chars("auctioned (350 gold, finished)"), NOW) {
        Some(ResidenceStatus::AuctionFinished { bid }) => assert_eq!(bid, 350),
        other => panic!("unexpected classification: {:?}", other),
    }
}

#[test]
fn status_auction_with_bid_resolves_to_the_next_server_save() {
    match classify_residence_status(&to_chars("auctioned (200 gold, 2 days left)"), NOW) {
        Some(ResidenceStatus::AuctionWithBid { bid, expiry_time }) => {
            assert_eq!(bid, 200);
            assert_eq!(
                expiry_time,
                UtcDateTime { year: 2023, month: 11, day: 16, hour: 8, minute: 0, second: 0 }
            );
        },
        other => panic!("unexpected classification: {:?}", other),
    }
}

#[test]
fn status_auction_with_hours_resolves_to_the_next_hour() {
    match classify_residence_status(&to_chars("auctioned (75 gold, 1 hour left)"), NOW) {
        Some(ResidenceStatus::AuctionWithBid { bid, expiry_time }) => {
            assert_eq!(bid, 75);
            assert_eq!(
                expiry_time,
                UtcDateTime { year: 2023, month: 11, day: 15, hour: 0, minute: 0, second: 0 }
            );
        },
        other => panic!("unexpected classification: {:?}", other),
    }
}

#[test]
fn status_outside_the_vocabulary_is_rejected() {
    assert_eq!(classify_residence_status(&to_chars("condemned"), NOW), None);
}

#[test]
fn a_zero_day_countdown_is_rejected() {
    // Anchored at the current day's 08:00, a zero day count could already
    // lie in the past; such a text never classifies.
    assert_eq!(
        classify_residence_status(&to_chars("auctioned (10 gold, 0 days left)"), NOW),
        None
    );
}

#[test]
fn a_zero_hour_countdown_still_lands_ahead() {
    // The hour anchor is the next hour boundary, which is already past the
    // clock reading even with nothing added.
    match classify_residence_status(&to_chars("auctioned (10 gold, 0 hours left)"), NOW) {
        Some(ResidenceStatus::AuctionWithBid { bid, expiry_time }) => {
            assert_eq!(bid, 10);
            assert_eq!(
                expiry_time,
                UtcDateTime { year: 2023, month: 11, day: 14, hour: 23, minute: 0, second: 0 }
            );
        },
        other => panic!("unexpected classification: {:?}", other),
    }
}
