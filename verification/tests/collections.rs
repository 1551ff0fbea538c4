use unifi_core::collection::EntityCollection;
use unifi_core::entity_id::EntityId;

#[test]
fn upsert_returns_true_for_new_key() {
    let mut col: EntityCollection<String> = EntityCollection::new();
    let id = EntityId::from("test-id".to_string());
    assert!(col.upsert("key1".into(), id, "hello".into()));
}

#[test]
fn upsert_returns_false_for_existing_key() {
    let mut col: EntityCollection<String> = EntityCollection::new();
    let id = EntityId::from("test-id".to_string());
    col.upsert("key1".into(), id.clone(), "hello".into());
    assert!(!col.upsert("key1".into(), id, "world".into()));
}

#[test]
fn get_by_key_and_id() {
    let mut col: EntityCollection<String> = EntityCollection::new();
    let id = EntityId::Uuid(uuid::Uuid::new_v4().as_u128());
    col.upsert("key1".into(), id.clone(), "hello".into());

    assert_eq!(*col.get_by_key("key1").unwrap(), "hello");
    assert_eq!(*col.get_by_id(&id).unwrap(), "hello");
}

#[test]
fn remove_cleans_up_indexes() {
    let mut col: EntityCollection<String> = EntityCollection::new();
    let id = EntityId::from("test-id".to_string());
    col.upsert("key1".into(), id.clone(), "hello".into());

    let removed = col.remove("key1");
    assert_eq!(*removed.unwrap(), "hello");
    assert!(col.get_by_key("key1").is_none());
    assert!(col.get_by_id(&id).is_none());
    assert!(col.is_empty());
}

#[test]
fn clear_empties_everything() {
    let mut col: EntityCollection<String> = EntityCollection::new();
    col.upsert("a".into(), EntityId::from("1".to_string()), "x".into());
    col.upsert("b".into(), EntityId::from("2".to_string()), "y".into());
    assert_eq!(col.len(), 2);

    col.clear();
    assert!(col.is_empty());
    assert!(col.snapshot().is_empty());
}

#[test]
fn snapshot_reflects_current_state() {
    let mut col: EntityCollection<String> = EntityCollection::new();
    assert!(col.snapshot().is_empty());

    col.upsert("a".into(), EntityId::from("1".to_string()), "x".into());
    col.upsert("b".into(), EntityId::from("2".to_string()), "y".into());

    let snap = col.snapshot();
    assert_eq!(snap.len(), 2);
}

#[test]
fn upsert_with_changed_id_cleans_old_mapping() {
    let mut col: EntityCollection<String> = EntityCollection::new();
    let id1 = EntityId::from("old-id".to_string());
    let id2 = EntityId::from("new-id".to_string());

    col.upsert("key1".into(), id1.clone(), "v1".into());
    assert!(col.get_by_id(&id1).is_some());

    col.upsert("key1".into(), id2.clone(), "v2".into());
    assert!(col.get_by_id(&id1).is_none());
    assert_eq!(*col.get_by_id(&id2).unwrap(), "v2");
}

#[test]
fn snapshot_keeps_insertion_order_and_upsert_replaces_in_place() {
    let mut col: EntityCollection<String> = EntityCollection::new();
    col.upsert("a".into(), EntityId::from("1".to_string()), "x".into());
    col.upsert("b".into(), EntityId::from("2".to_string()), "y".into());
    col.upsert("a".into(), EntityId::from("1".to_string()), "z".into());
    let snap: Vec<String> = col.snapshot().iter().map(|s| (**s).clone()).collect();
    assert_eq!(snap, vec!["z".to_string(), "y".to_string()]);
    assert_eq!(col.keys(), vec!["a".to_string(), "b".to_string()]);
}

#[test]
fn removing_a_missing_key_changes_nothing() {
    let mut col: EntityCollection<String> = EntityCollection::new();
    col.upsert("a".into(), EntityId::from("1".to_string()), "x".into());
    assert!(col.remove("missing").is_none());
    assert_eq!(col.len(), 1);
    assert_eq!(*col.get_by_key("a").unwrap(), "x");
}

#[test]
fn removing_a_key_keeps_an_id_that_moved_elsewhere() {
    let mut col: EntityCollection<String> = EntityCollection::new();
    let id1 = EntityId::from("id1".to_string());
    col.upsert("a".into(), id1.clone(), "x".into());
    col.upsert("b".into(), id1.clone(), "y".into());
    let removed = col.remove("a");
    assert_eq!(*removed.unwrap(), "x");
    assert_eq!(*col.get_by_id(&id1).unwrap(), "y");
}
