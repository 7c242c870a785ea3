//! Residence aggregation: the fan-out cross product and the fail-fast
//! reduction.

use tibia_api::aggregate::collect_residences;
use tibia_api::aggregate::residence_combinations;
use tibia_api::aggregate::residence_types_for_query;
use tibia_api::aggregate::towns_for_query;
use tibia_api::error::TibiaError;
use tibia_api::models::Residence;
use tibia_api::models::ResidenceStatus;
use tibia_api::models::ResidenceType;

fn residence(id: u32, town: &str) -> Residence {
    Residence {
        id,
        town: town.to_string(),
        residence_type: ResidenceType::House,
        name: format!("House {id}"),
        size: 16,
        rent: 50_000,
        status: ResidenceStatus::Rented,
    }
}

#[test]
fn an_empty_town_list_yields_an_empty_list_not_an_error() {
    let towns: Vec<String> = Vec::new();
    let types = residence_types_for_query(None);
    assert_eq!(types, vec![ResidenceType::House, ResidenceType::Guildhall]);

    let combos = residence_combinations(&towns, &types);
    assert!(combos.is_empty());

    let results: Vec<Result<Vec<Residence>, TibiaError>> = Vec::new();
    let collected = collect_residences(results).unwrap();
    assert!(collected.is_empty());
}

#[test]
fn a_failing_town_fails_the_whole_aggregate() {
    let results: Vec<Result<Vec<Residence>, TibiaError>> = vec![
        Ok(vec![residence(1, "Thais")]),
        Err(TibiaError::NotFound),
        Ok(vec![residence(2, "Carlin")]),
    ];
    assert!(matches!(collect_residences(results), Err(TibiaError::NotFound)));
}

#[test]
fn successes_concatenate_in_task_order() {
    let results: Vec<Result<Vec<Residence>, TibiaError>> = vec![
        Ok(vec![residence(1, "Thais"), residence(2, "Thais")]),
        Ok(vec![]),
        Ok(vec![residence(3, "Carlin")]),
    ];
    let collected = collect_residences(results).unwrap();
    let ids: Vec<u32> = collected.iter().map(|r| r.id).collect();
    assert_eq!(ids, vec![1, 2, 3]);
}

#[test]
fn combinations_walk_towns_outermost() {
    let towns = vec!["Thais".to_string(), "Carlin".to_string()];
    let types = vec![ResidenceType::House, ResidenceType::Guildhall];
    let combos = residence_combinations(&towns, &types);
    let expected: Vec<(ResidenceType, String)> = vec![
        (ResidenceType::House, "Thais".to_string()),
        (ResidenceType::Guildhall, "Thais".to_string()),
        (ResidenceType::House, "Carlin".to_string()),
        (ResidenceType::Guildhall, "Carlin".to_string()),
    ];
    assert_eq!(combos, expected);
}

#[test]
fn an_explicit_town_filter_replaces_the_cached_towns() {
    let cached = vec!["Thais".to_string(), "Carlin".to_string()];
    let towns = towns_for_query(Some("Edron".to_string()), &cached);
    assert_eq!(towns, vec!["Edron".to_string()]);
    let towns = towns_for_query(None, &cached);
    assert_eq!(towns, cached);
}

#[test]
fn an_explicit_type_filter_restricts_the_fan_out() {
    let types = residence_types_for_query(Some(ResidenceType::Guildhall));
    assert_eq!(types, vec![ResidenceType::Guildhall]);
}
