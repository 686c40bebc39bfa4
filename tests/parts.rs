use shoal::{
    apply_update, group_query_parameters, seed_fish, Fish, FishId, QueryParameterValue,
    StoreError, UpdateFishRequest, WeightKg,
};

fn pairs(items: &[(&str, &str)]) -> Vec<(String, String)> {
    items.iter().map(|(k, v)| (k.to_string(), v.to_string())).collect()
}

#[test]
fn query_parameters_are_grouped_by_name_in_first_order() {
    let grouped =
        group_query_parameters(pairs(&[("a", "1"), ("b", "2"), ("a", "3"), ("c", "x"), ("a", "4")]));
    let keys: Vec<&str> = grouped.keys().map(|k| k.as_str()).collect();
    assert_eq!(keys, vec!["a", "b", "c"]);
    match &grouped["a"] {
        QueryParameterValue::Many(values) => assert_eq!(values, &vec!["1", "3", "4"]),
        other => panic!("unexpected: {:?}", other),
    }
    match &grouped["b"] {
        QueryParameterValue::One(value) => assert_eq!(value, "2"),
        other => panic!("unexpected: {:?}", other),
    }
    match &grouped["c"] {
        QueryParameterValue::One(value) => assert_eq!(value, "x"),
        other => panic!("unexpected: {:?}", other),
    }
}

#[test]
fn a_name_given_twice_holds_both_values() {
    let grouped = group_query_parameters(pairs(&[("q", "fish"), ("q", "fish")]));
    assert_eq!(grouped.len(), 1);
    match &grouped["q"] {
        QueryParameterValue::Many(values) => assert_eq!(values, &vec!["fish", "fish"]),
        other => panic!("unexpected: {:?}", other),
    }
}

#[test]
fn no_query_parameters_give_an_empty_map() {
    assert!(group_query_parameters(Vec::new()).is_empty());
}

#[test]
fn error_status_codes() {
    assert_eq!(StoreError::NotFound.status_code(), 404);
    assert_eq!(StoreError::SessionNotFound { session_id: b"x".to_vec() }.status_code(), 400);
    assert_eq!(StoreError::SessionRequired.status_code(), 400);
}

#[test]
fn error_details() {
    assert_eq!(StoreError::NotFound.detail().detail, "Not found");
    let err = StoreError::SessionNotFound { session_id: b"abc".to_vec() };
    assert_eq!(err.detail().detail, "Session `abc` not found");
    assert_eq!(StoreError::SessionRequired.detail().detail, "A session is required to change fish");
}

#[test]
fn session_not_found_detail_replaces_invalid_utf8() {
    let err = StoreError::SessionNotFound { session_id: vec![b'a', 0xff, b'b'] };
    assert_eq!(err.detail().detail, "Session `a\u{fffd}b` not found");
}

#[test]
fn apply_update_replaces_given_fields() {
    let fish = Fish {
        id: FishId(7),
        name: "Nemo".to_string(),
        species: "Clownfish".to_string(),
        age: 2,
        weight_kg: WeightKg(0.1f64.to_bits() as i64),
    };
    let change = UpdateFishRequest {
        name: None,
        species: Some("Anemonefish".to_string()),
        age: None,
        weight_kg: Some(WeightKg(0.2f64.to_bits() as i64)),
    };
    let updated = apply_update(fish, change);
    assert_eq!(updated.id, FishId(7));
    assert_eq!(updated.name, "Nemo");
    assert_eq!(updated.species, "Anemonefish");
    assert_eq!(updated.age, 2);
    assert_eq!(f64::from_bits(updated.weight_kg.0 as u64), 0.2);
}

#[test]
fn seed_weights_are_the_template_weights() {
    let seeds = seed_fish();
    let weights: Vec<f64> = seeds.iter().map(|s| f64::from_bits(s.weight_kg.0 as u64)).collect();
    assert_eq!(weights, vec![0.1, 0.3, 5.2, 8.3]);
}

#[test]
fn database_failures_are_internal_errors() {
    let err = StoreError::Sqlite(rusqlite::Error::QueryReturnedNoRows);
    assert_eq!(err.status_code(), 500);
    assert_eq!(err.detail().detail, "Internal server error");
    let err = StoreError::LoginAbandoned(rusqlite::Error::QueryReturnedNoRows);
    assert_eq!(err.status_code(), 500);
    assert_eq!(err.detail().detail, "Internal server error");
}

#[test]
fn a_clock_out_of_range_is_an_internal_error() {
    let err = StoreError::ClockOutOfRange;
    assert_eq!(err.status_code(), 500);
    assert_eq!(err.detail().detail, "Internal server error");
}
