//! Kill-statistics extraction: five-cell tuples, with the "Total" row split
//! into the aggregates and kept out of the per-race list.

use tibia_api::error::TibiaError;
use tibia_api::kill_statistics::parse_killstatistics_page;

fn kill_statistics_page() -> String {
    let rows = "<tr class=\"DataRow\"><td>rats</td><td>12</td><td>3</td><td>70</td><td>8</td></tr>\
        <tr class=\"DataRow\"><td>demons</td><td>1</td><td>5</td><td>9</td><td>30</td></tr>\
        <tr class=\"DataRow\"><td>Total</td><td>321</td><td>44</td><td>2100</td><td>280</td></tr>";
    format!(
        "<html><head><title>Tibia - Kill Statistics</title></head><body>\
         <div class=\"main-content\"><table id=\"KillStatisticsTable\">{rows}</table></div>\
         </body></html>"
    )
}

#[test]
fn it_can_parse_kill_statistics() {
    let page = kill_statistics_page();
    let ks = parse_killstatistics_page(&page).unwrap().unwrap();
    assert_eq!(ks.total_last_day.killed_players, 321);
    assert_eq!(ks.total_last_day.killed_by_players, 44);
    assert_eq!(ks.total_last_week.killed_players, 2100);
    assert_eq!(ks.total_last_week.killed_by_players, 280);

    assert_eq!(ks.races.len(), 2);
    assert_eq!(ks.races[0].race, "rats");
    assert_eq!(ks.races[0].last_day.killed_players, 12);
    assert_eq!(ks.races[0].last_week.killed_by_players, 8);
    assert_eq!(ks.races[1].race, "demons");

    // The synthetic "Total" row never appears inside the race list.
    assert!(ks.races.iter().all(|r| r.race != "Total"));
}

#[test]
fn worlds_world_name_kill_statistics_returns_404_for_invalid_world() {
    // The fallback page has no data cells at all.
    let page = "<html><head><title>Tibia - Kill Statistics</title></head><body>\
        <div class=\"main-content\"><p>No world selected.</p></div></body></html>";
    assert_eq!(parse_killstatistics_page(page).unwrap(), None);
}

#[test]
fn an_unparsable_count_fails_loudly() {
    let page = "<html><head><title>Tibia - Kill Statistics</title></head><body>\
        <div class=\"main-content\"><table id=\"KillStatisticsTable\">\
        <tr class=\"DataRow\"><td>rats</td><td>many</td><td>3</td><td>70</td><td>8</td></tr>\
        </table></div></body></html>";
    assert_eq!(parse_killstatistics_page(page), Err(TibiaError::UnexpectedPageContent));
}
