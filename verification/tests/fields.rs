//! The shared field parsers: sanitization and digit runs, and the error
//! taxonomy's status mapping.

use tibia_api::error::ClientErrorCode;
use tibia_api::error::PublicErrorBody;
use tibia_api::error::TibiaError;
use tibia_api::models::Location;
use tibia_api::models::PvpType;
use tibia_api::models::QueryParams;
use tibia_api::models::ResidenceType;
use tibia_api::models::Town;
use tibia_api::models::Vocation;
use tibia_api::num::parse_u32_str;
use tibia_api::sanitize::Sanitizable;
use tibia_api::sanitize::sanitize_string;
use tibia_api::text::to_chars;
use tibia_api::text::string_from_chars;

#[test]
fn sanitize_trims_and_decodes_entities() {
    assert_eq!(sanitize_string("  Carlin  "), "Carlin");
    assert_eq!(sanitize_string("Gray&nbsp;Beach"), "Gray Beach");
    assert_eq!(sanitize_string("Fish &amp; Chips"), "Fish & Chips");
    assert_eq!(sanitize_string("a\\nb"), "ab");
    assert_eq!(sanitize_string("\\u0026"), "&");
    assert_eq!("Port\u{a0}Hope".to_string().sanitize(), "Port Hope");
}

#[test]
fn digit_parsing_is_exact() {
    assert_eq!(parse_u32_str("0"), Some(0));
    assert_eq!(parse_u32_str("64028"), Some(64028));
    assert_eq!(parse_u32_str("4294967295"), Some(4294967295));
    assert_eq!(parse_u32_str("4294967296"), None);
    assert_eq!(parse_u32_str(""), None);
    assert_eq!(parse_u32_str("12a"), None);
    assert_eq!(parse_u32_str("-3"), None);
}

#[test]
fn chars_round_trip_through_strings() {
    let cs = to_chars("Ab'Dendriel");
    assert_eq!(string_from_chars(&cs), "Ab'Dendriel");
}

#[test]
fn vocabularies_are_closed() {
    assert_eq!(Vocation::from_str("Elder Druid"), Ok(Vocation::ElderDruid));
    assert_eq!(Vocation::from_str("Jester"), Err(TibiaError::UnexpectedPageContent));
    assert_eq!(PvpType::from_str("Retro Hardcore PvP"), Ok(PvpType::RetroHardcore));
    assert_eq!(PvpType::from_str("Chaotic"), Err(TibiaError::UnexpectedPageContent));
    assert_eq!(Location::from_str("Oceania"), Ok(Location::Oceania));
    assert_eq!(Location::from_str("Moon"), Err(TibiaError::UnexpectedPageContent));
}

#[test]
fn errors_map_to_their_statuses() {
    assert_eq!(TibiaError::Maintenance.status_code(), 503);
    assert_eq!(TibiaError::NotFound.status_code(), 404);
    assert_eq!(TibiaError::UnexpectedPageContent.status_code(), 500);

    let ce = TibiaError::Maintenance.into_client_error();
    assert_eq!(ce.status, 503);
    assert!(matches!(ce.code, ClientErrorCode::SERVICE_ERROR));
    let ce = TibiaError::NotFound.into_client_error();
    assert!(matches!(ce.code, ClientErrorCode::RESOURCE_NOT_FOUND));

    let body = PublicErrorBody::new("The tibia website failed to process the underlying request");
    assert_eq!(body.message, "The tibia website failed to process the underlying request");
}

#[test]
fn query_params_hand_their_filters_out() {
    let q = QueryParams { town: Some("Thais".to_string()), residence_type: None };
    assert_eq!(q.town(), Some("Thais".to_string()));
    assert_eq!(q.residence_type(), None);
    let q = QueryParams { town: None, residence_type: Some(ResidenceType::Guildhall) };
    assert_eq!(q.town(), None);
    assert_eq!(q.residence_type(), Some(ResidenceType::Guildhall));

    let t = Town("Thais".to_string());
    assert_eq!(t.0, "Thais");
}
