use shoal::{
    CreateFishRequest, FishId, SessionId, SessionStore, Store, StoreError, UpdateFishRequest,
    WeightKg,
};

fn weight(kg: f64) -> WeightKg {
    WeightKg(kg.to_bits() as i64)
}

fn body(name: &str, species: &str, age: u32, kg: f64) -> CreateFishRequest {
    CreateFishRequest {
        name: name.to_string(),
        species: species.to_string(),
        age,
        weight_kg: weight(kg),
    }
}

fn no_change() -> UpdateFishRequest {
    UpdateFishRequest { name: None, species: None, age: None, weight_kg: None }
}

fn login(store: &mut Store) -> SessionStore {
    let resp = store.create_session().unwrap();
    SessionStore::from_header(store, Some(resp.id.as_str().as_bytes().to_vec())).unwrap()
}

fn anonymous(store: &Store) -> SessionStore {
    SessionStore::from_header(store, None).unwrap()
}

#[test]
fn new_store_lists_the_templates() {
    let store = Store::new().unwrap();
    let fish = anonymous(&store).list(&store).unwrap();
    let names: Vec<&str> = fish.iter().map(|f| f.name.as_str()).collect();
    assert_eq!(names, vec!["Nemo", "Dory", "Sam", "Barry"]);
    let ids: Vec<u32> = fish.iter().map(|f| f.id.0).collect();
    assert_eq!(ids, vec![1, 2, 3, 4]);
    assert_eq!(fish[0].species, "Clownfish");
    assert_eq!(fish[3].age, 11);
    assert_eq!(f64::from_bits(fish[2].weight_kg.0 as u64), 5.2);
}

#[test]
fn login_gives_a_hex_token_and_copies_of_the_templates() {
    let mut store = Store::new().unwrap();
    let resp = store.create_session().unwrap();
    let token = resp.id.as_str();
    assert_eq!(token.len(), 32);
    assert!(token.chars().all(|c| c.is_ascii_digit() || ('a'..='f').contains(&c)));
    let session = SessionStore::from_header(&store, Some(token.as_bytes().to_vec())).unwrap();
    let fish = session.list(&store).unwrap();
    let names: Vec<&str> = fish.iter().map(|f| f.name.as_str()).collect();
    assert_eq!(names, vec!["Nemo", "Dory", "Sam", "Barry"]);
    let ids: Vec<u32> = fish.iter().map(|f| f.id.0).collect();
    assert_eq!(ids, vec![5, 6, 7, 8]);
}

#[test]
fn two_logins_give_different_tokens() {
    let mut store = Store::new().unwrap();
    let a = store.create_session().unwrap();
    let b = store.create_session().unwrap();
    assert_ne!(a.id.as_str(), b.id.as_str());
}

#[test]
fn login_expiry_text_is_one_hour_later() {
    let mut store = Store::new().unwrap();
    let resp = store.create_session_at(0).unwrap();
    assert_eq!(resp.expires_at, "1970-01-01T01:00:00Z");
    let resp = store.create_session_at(1_700_000_000).unwrap();
    assert_eq!(resp.expires_at, "2023-11-14T23:13:20Z");
}

#[test]
fn login_expiry_is_clamped_to_the_latest_timestamp() {
    let mut store = Store::new().unwrap();
    let resp = store.create_session_at(shoal::TIMESTAMP_MAX_SECOND - 10).unwrap();
    assert_eq!(resp.expires_at, "9999-12-30T22:00:00Z");
}

#[test]
fn created_fish_gets_a_fresh_id_in_its_session() {
    let mut store = Store::new().unwrap();
    let session = login(&mut store);
    let before: Vec<u32> = session.list(&store).unwrap().iter().map(|f| f.id.0).collect();
    let fish = session.create(&mut store, body("Nemo2", "Clownfish", 1, 0.1)).unwrap();
    assert!(!before.contains(&fish.id.0));
    assert_eq!(fish.name, "Nemo2");
    assert_eq!(fish.species, "Clownfish");
    assert_eq!(fish.age, 1);
    assert_eq!(f64::from_bits(fish.weight_kg.0 as u64), 0.1);
    let listed = session.list(&store).unwrap();
    assert_eq!(listed.len(), 5);
    assert_eq!(listed[4].id, fish.id);
    let got = session.get(&store, fish.id).unwrap();
    assert_eq!(got.name, "Nemo2");
}

#[test]
fn created_fish_is_invisible_without_the_session_header() {
    let mut store = Store::new().unwrap();
    let resp = store.create_session().unwrap();
    let header = resp.id.as_str().as_bytes().to_vec();
    let session = SessionStore::from_header(&store, Some(header)).unwrap();
    let fish = session.create(&mut store, body("Nemo2", "Clownfish", 1, 0.1)).unwrap();
    assert!(fish.id.0 > 8);
    let unauthenticated = SessionStore::from_header(&store, None).unwrap();
    let err = unauthenticated.get(&store, fish.id).unwrap_err();
    assert!(matches!(err, StoreError::NotFound));
    assert_eq!(err.status_code(), 404);
    assert!(unauthenticated.list(&store).unwrap().iter().all(|f| f.id != fish.id));
}

#[test]
fn created_fish_is_invisible_to_another_session() {
    let mut store = Store::new().unwrap();
    let a = login(&mut store);
    let b = login(&mut store);
    let fish = a.create(&mut store, body("Wanda", "Goldfish", 3, 0.2)).unwrap();
    assert!(matches!(b.get(&store, fish.id), Err(StoreError::NotFound)));
    assert!(b.list(&store).unwrap().iter().all(|f| f.id != fish.id));
    assert_eq!(a.get(&store, fish.id).unwrap().name, "Wanda");
}

#[test]
fn deleting_another_sessions_fish_is_not_found() {
    let mut store = Store::new().unwrap();
    let a = login(&mut store);
    let b = login(&mut store);
    let fish = a.create(&mut store, body("Wanda", "Goldfish", 3, 0.2)).unwrap();
    let err = b.delete(&mut store, fish.id).unwrap_err();
    assert!(matches!(err, StoreError::NotFound));
    assert_eq!(err.status_code(), 404);
    assert_eq!(a.get(&store, fish.id).unwrap().name, "Wanda");
}

#[test]
fn deleting_returns_the_fish_and_removes_it() {
    let mut store = Store::new().unwrap();
    let session = login(&mut store);
    let first = session.list(&store).unwrap()[0].id;
    let deleted = session.delete(&mut store, first).unwrap();
    assert_eq!(deleted.name, "Nemo");
    assert!(matches!(session.get(&store, first), Err(StoreError::NotFound)));
    assert!(matches!(session.delete(&mut store, first), Err(StoreError::NotFound)));
    assert_eq!(session.list(&store).unwrap().len(), 3);
}

#[test]
fn empty_update_returns_the_fish_unchanged() {
    let mut store = Store::new().unwrap();
    let session = login(&mut store);
    let original = session.list(&store).unwrap().remove(1);
    let updated = session.update(&mut store, original.id, no_change()).unwrap();
    assert_eq!(updated.id, original.id);
    assert_eq!(updated.name, original.name);
    assert_eq!(updated.species, original.species);
    assert_eq!(updated.age, original.age);
    assert_eq!(updated.weight_kg, original.weight_kg);
}

#[test]
fn partial_update_changes_only_the_given_fields() {
    let mut store = Store::new().unwrap();
    let session = login(&mut store);
    let original = session.list(&store).unwrap().remove(1);
    let change = UpdateFishRequest { age: Some(6), name: Some("Dory II".to_string()), ..no_change() };
    let updated = session.update(&mut store, original.id, change).unwrap();
    assert_eq!(updated.name, "Dory II");
    assert_eq!(updated.age, 6);
    assert_eq!(updated.species, original.species);
    assert_eq!(updated.weight_kg, original.weight_kg);
    let stored = session.get(&store, original.id).unwrap();
    assert_eq!(stored.name, "Dory II");
    assert_eq!(stored.age, 6);
    assert_eq!(stored.species, "Blue Tang");
}

#[test]
fn updating_in_a_session_leaves_templates_and_other_sessions_alone() {
    let mut store = Store::new().unwrap();
    let a = login(&mut store);
    let b = login(&mut store);
    let target = a.list(&store).unwrap()[0].id;
    let change = UpdateFishRequest { weight_kg: Some(weight(9.5)), ..no_change() };
    a.update(&mut store, target, change).unwrap();
    assert_eq!(f64::from_bits(a.get(&store, target).unwrap().weight_kg.0 as u64), 9.5);
    let templates = anonymous(&store).list(&store).unwrap();
    assert_eq!(f64::from_bits(templates[0].weight_kg.0 as u64), 0.1);
    let others = b.list(&store).unwrap();
    assert_eq!(f64::from_bits(others[0].weight_kg.0 as u64), 0.1);
}

#[test]
fn updating_another_sessions_fish_is_not_found() {
    let mut store = Store::new().unwrap();
    let a = login(&mut store);
    let b = login(&mut store);
    let target = a.list(&store).unwrap()[0].id;
    let change = UpdateFishRequest { age: Some(40), ..no_change() };
    assert!(matches!(b.update(&mut store, target, change), Err(StoreError::NotFound)));
    assert_eq!(a.get(&store, target).unwrap().age, 2);
}

#[test]
fn changes_without_a_session_are_refused() {
    let mut store = Store::new().unwrap();
    let anon = anonymous(&store);
    let err = anon.create(&mut store, body("Nemo2", "Clownfish", 1, 0.1)).unwrap_err();
    assert!(matches!(err, StoreError::SessionRequired));
    assert_eq!(err.status_code(), 400);
    let change = UpdateFishRequest { age: Some(3), ..no_change() };
    assert!(matches!(anon.update(&mut store, FishId(1), change), Err(StoreError::SessionRequired)));
    assert!(matches!(anon.delete(&mut store, FishId(1)), Err(StoreError::SessionRequired)));
    assert_eq!(anon.list(&store).unwrap().len(), 4);
    assert_eq!(anon.get(&store, FishId(1)).unwrap().age, 2);
}

#[test]
fn template_fish_are_not_found_in_a_session() {
    let mut store = Store::new().unwrap();
    let session = login(&mut store);
    assert!(matches!(session.get(&store, FishId(1)), Err(StoreError::NotFound)));
    assert!(matches!(session.delete(&mut store, FishId(1)), Err(StoreError::NotFound)));
}

#[test]
fn unknown_token_is_refused() {
    let store = Store::new().unwrap();
    let header = b"0123456789abcdef0123456789abcdef".to_vec();
    match SessionStore::from_header(&store, Some(header.clone())) {
        Err(StoreError::SessionNotFound { session_id }) => assert_eq!(session_id, header),
        other => panic!("unexpected: {:?}", other.is_ok()),
    }
}

#[test]
fn header_that_is_not_text_is_refused() {
    let mut store = Store::new().unwrap();
    let resp = store.create_session().unwrap();
    let mut header = resp.id.as_str().as_bytes().to_vec();
    header.push(0xff);
    let err = SessionStore::from_header(&store, Some(header.clone())).unwrap_err();
    assert_eq!(err.status_code(), 400);
    match err {
        StoreError::SessionNotFound { session_id } => assert_eq!(session_id, header),
        other => panic!("unexpected: {:?}", other.detail()),
    }
}

#[test]
fn session_is_live_until_its_expiry_instant() {
    let mut store = Store::new().unwrap();
    let resp = store.create_session_at(1000).unwrap();
    let id = resp.id;
    assert!(store.contains_session_at(&id, 1000).unwrap());
    assert!(store.contains_session_at(&id, 4599).unwrap());
    assert!(!store.contains_session_at(&id, 4600).unwrap());
    let header = Some(id.as_str().as_bytes().to_vec());
    assert!(SessionStore::from_header_at(&store, header.clone(), 4599).is_ok());
    assert!(matches!(
        SessionStore::from_header_at(&store, header, 4600),
        Err(StoreError::SessionNotFound { .. })
    ));
    let unknown = SessionId("ffffffffffffffffffffffffffffffff".to_string());
    assert!(!store.contains_session_at(&unknown, 0).unwrap());
}

#[test]
fn reaping_keeps_a_session_expiring_now_and_deletes_an_expired_one() {
    let mut store = Store::new().unwrap();
    let resp = store.create_session_at(1000).unwrap();
    let token = resp.id.as_str().to_string();
    assert!(store.reap_sessions_at(4599).unwrap().is_empty());
    assert!(store.reap_sessions_at(4600).unwrap().is_empty());
    assert!(store.contains_session_at(&resp.id, 0).unwrap());
    let reaped = store.reap_sessions_at(4601).unwrap();
    let reaped: Vec<&str> = reaped.iter().map(|s| s.as_str()).collect();
    assert_eq!(reaped, vec![token.as_str()]);
    assert!(!store.contains_session_at(&resp.id, 0).unwrap());
}

#[test]
fn reaping_deletes_the_fish_of_expired_sessions() {
    let mut store = Store::new().unwrap();
    let old = store.create_session_at(1000).unwrap();
    let young = store.create_session_at(5000).unwrap();
    let old_header = Some(old.id.as_str().as_bytes().to_vec());
    let young_header = Some(young.id.as_str().as_bytes().to_vec());
    let old_view = SessionStore::from_header_at(&store, old_header, 2000).unwrap();
    let young_view = SessionStore::from_header_at(&store, young_header, 2000).unwrap();
    let extra = old_view.create(&mut store, body("Gill", "Moorish Idol", 7, 0.4)).unwrap();
    let owned: Vec<FishId> = old_view.list(&store).unwrap().iter().map(|f| f.id).collect();
    assert_eq!(owned.len(), 5);
    let reaped = store.reap_sessions_at(5000).unwrap();
    assert_eq!(reaped.len(), 1);
    assert_eq!(reaped[0].as_str(), old.id.as_str());
    for id in owned {
        assert!(matches!(old_view.get(&store, id), Err(StoreError::NotFound)));
        assert!(matches!(young_view.get(&store, id), Err(StoreError::NotFound)));
        assert!(matches!(anonymous(&store).get(&store, id), Err(StoreError::NotFound)));
    }
    assert!(matches!(old_view.get(&store, extra.id), Err(StoreError::NotFound)));
    assert_eq!(young_view.list(&store).unwrap().len(), 4);
    assert_eq!(anonymous(&store).list(&store).unwrap().len(), 4);
}

#[test]
fn reaping_with_a_real_clock_keeps_fresh_sessions() {
    let mut store = Store::new().unwrap();
    let resp = store.create_session().unwrap();
    assert!(store.reap_sessions().unwrap().is_empty());
    assert!(SessionStore::from_header(&store, Some(resp.id.as_str().as_bytes().to_vec())).is_ok());
}

#[test]
fn reaping_reports_each_expired_session_once() {
    let mut store = Store::new().unwrap();
    let a = store.create_session_at(100).unwrap();
    let b = store.create_session_at(200).unwrap();
    let kept = store.create_session_at(10_000).unwrap();
    let mut reaped: Vec<String> =
        store.reap_sessions_at(5000).unwrap().iter().map(|s| s.as_str().to_string()).collect();
    reaped.sort();
    let mut expected = vec![a.id.as_str().to_string(), b.id.as_str().to_string()];
    expected.sort();
    assert_eq!(reaped, expected);
    assert!(store.contains_session_at(&kept.id, 5000).unwrap());
    assert!(store.reap_sessions_at(5000).unwrap().is_empty());
}

#[test]
fn header_with_a_control_byte_is_refused_before_any_lookup() {
    let store = Store::new().unwrap();
    let header = b"abc\x01def".to_vec();
    match SessionStore::from_header_at(&store, Some(header.clone()), 0) {
        Err(StoreError::SessionNotFound { session_id }) => assert_eq!(session_id, header),
        other => panic!("unexpected: {:?}", other.is_ok()),
    }
}

#[test]
fn header_with_a_tab_is_text() {
    let store = Store::new().unwrap();
    let header = b"abc\tdef".to_vec();
    match SessionStore::from_header_at(&store, Some(header.clone()), 0) {
        Err(StoreError::SessionNotFound { session_id }) => assert_eq!(session_id, header),
        other => panic!("unexpected: {:?}", other.is_ok()),
    }
}

#[test]
fn login_token_as_header_resolves_to_that_session() {
    let mut store = Store::new().unwrap();
    let resp = store.create_session_at(0).unwrap();
    assert_eq!(resp.expires_at, "1970-01-01T01:00:00Z");
    let header = Some(resp.id.as_str().as_bytes().to_vec());
    let view = SessionStore::from_header_at(&store, header, 3599).unwrap();
    let fish = view.create(&mut store, body("Nemo2", "Clownfish", 1, 0.1)).unwrap();
    assert_eq!(view.get(&store, fish.id).unwrap().name, "Nemo2");
}

#[test]
fn dump_copies_the_database() {
    let mut store = Store::new().unwrap();
    store.create_session().unwrap();
    assert!(store.dump(":memory:").is_ok());
}
