//! Towns extraction over snapshot-shaped pages: the output order is stable
//! and equals the source document order.

use tibia_api::error::TibiaError;
use tibia_api::towns::parse_towns_page;

fn towns_page(towns: &[&str]) -> String {
    let mut inputs = String::new();
    for t in towns {
        inputs.push_str(&format!(
            "<tr><td><input type=\"checkbox\" name=\"town\" value=\"{t}\"><label>{t}</label></td></tr>"
        ));
    }
    format!(
        "<html><head><title>Tibia - Houses</title></head><body>\
         <div class=\"main-content\"><div id=\"houses\">\
         <table class=\"TableContent\"><tr><td>filter form</td></tr></table>\
         <table class=\"TableContent\">{inputs}</table>\
         </div></div></body></html>"
    )
}

const EIGHTEEN_TOWNS: [&str; 18] = [
    "Ab'Dendriel",
    "Ankrahmun",
    "Carlin",
    "Darashia",
    "Edron",
    "Farmine",
    "Gray Beach",
    "Issavi",
    "Kazordoon",
    "Liberty Bay",
    "Moonfall",
    "Port Hope",
    "Rathleton",
    "Silvertides",
    "Svargrond",
    "Thais",
    "Venore",
    "Yalahar",
];

#[test]
fn it_can_parse_towns() {
    let page = towns_page(&EIGHTEEN_TOWNS);
    let towns = parse_towns_page(&page).unwrap();
    let expected: Vec<String> = EIGHTEEN_TOWNS.iter().map(|t| t.to_string()).collect();
    assert_eq!(towns, expected);
}

#[test]
fn towns_keep_document_order_not_sort_order() {
    let page = towns_page(&["Venore", "Ab'Dendriel", "Thais"]);
    let towns = parse_towns_page(&page).unwrap();
    assert_eq!(towns, vec!["Venore".to_string(), "Ab'Dendriel".to_string(), "Thais".to_string()]);
}

#[test]
fn towns_are_sanitized() {
    let page = towns_page(&["  Gray Beach ", "Port&nbsp;Hope"]);
    let towns = parse_towns_page(&page).unwrap();
    assert_eq!(towns, vec!["Gray Beach".to_string(), "Port Hope".to_string()]);
}

#[test]
fn towns_sends_503_when_maintenance() {
    let page = "<html><head><title>Tibia - Free Multiplayer Online Role Playing Game - Maintenance\
                </title></head><body><div class=\"main-content\"></div></body></html>";
    assert_eq!(parse_towns_page(page), Err(TibiaError::Maintenance));
}

#[test]
fn towns_page_without_listing_has_drifted() {
    let page = "<html><head><title>Tibia</title></head><body>\
                <div class=\"main-content\"></div></body></html>";
    assert_eq!(parse_towns_page(page), Err(TibiaError::UnexpectedPageContent));
}
