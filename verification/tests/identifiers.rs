use unifi_core::entity_id::{EntityId, MacAddress};

#[test]
fn entity_id_from_uuid_string() {
    let id = EntityId::from("550e8400-e29b-41d4-a716-446655440000".to_owned());
    assert!(id.as_uuid().is_some());
}

#[test]
fn entity_id_from_legacy_string() {
    let id = EntityId::from("507f1f77bcf86cd799439011".to_owned());
    assert!(id.as_legacy().is_some());
}

#[test]
fn entity_id_display() {
    let uuid = uuid::Uuid::parse_str("550e8400-e29b-41d4-a716-446655440000").unwrap();
    let id = EntityId::Uuid(uuid.as_u128());
    assert_eq!(id.to_string(), "550e8400-e29b-41d4-a716-446655440000");
}

#[test]
fn entity_id_from_str() {
    let id: EntityId = "507f1f77bcf86cd799439011".parse().unwrap();
    assert!(id.as_legacy().is_some());
}

#[test]
fn mac_address_normalizes_dashes() {
    let mac = MacAddress::new("AA-BB-CC-DD-EE-FF");
    assert_eq!(mac.as_str(), "aa:bb:cc:dd:ee:ff");
}

#[test]
fn mac_address_normalizes_case() {
    let mac = MacAddress::new("AA:BB:CC:DD:EE:FF");
    assert_eq!(mac.as_str(), "aa:bb:cc:dd:ee:ff");
}

#[test]
fn mac_address_from_str() {
    let mac: MacAddress = "AA-BB-CC-DD-EE-FF".parse().unwrap();
    assert_eq!(mac.to_string(), "aa:bb:cc:dd:ee:ff");
}

#[test]
fn uuid_text_round_trips_through_entity_id() {
    let text = "550e8400-e29b-41d4-a716-446655440000";
    let id = EntityId::from_text(text);
    assert_eq!(id.as_uuid(), Some(0x550e8400e29b41d4a716446655440000u128));
    assert_eq!(EntityId::from_text(&id.to_string()), id);
}

#[test]
fn uppercase_uuid_text_is_parsed_and_displayed_lowercase() {
    let id = EntityId::from_text("550E8400-E29B-41D4-A716-446655440000");
    assert_eq!(id.to_string(), "550e8400-e29b-41d4-a716-446655440000");
}

#[test]
fn legacy_id_keeps_its_text() {
    let id = EntityId::from_text("not-a-uuid");
    assert_eq!(id.as_legacy(), Some("not-a-uuid"));
    assert_eq!(id.to_string(), "not-a-uuid");
}

#[test]
fn normalized_mac_is_unchanged_by_normalizing_again() {
    let once = MacAddress::new("0A-1B-2C-3D-4E-5F");
    let twice = MacAddress::new(once.as_str());
    assert_eq!(once.as_str(), "0a:1b:2c:3d:4e:5f");
    assert_eq!(twice.as_str(), once.as_str());
    assert!(once.same(&twice));
}

#[test]
fn bare_hex_mac_gets_colons() {
    let mac = MacAddress::new("AABBCCDDEEFF");
    assert_eq!(mac.as_str(), "aa:bb:cc:dd:ee:ff");
    let again = MacAddress::new(mac.as_str());
    assert_eq!(again.as_str(), "aa:bb:cc:dd:ee:ff");
}

#[test]
fn short_hex_mac_is_only_lowercased() {
    let mac = MacAddress::new("AABBCC");
    assert_eq!(mac.as_str(), "aabbcc");
}

#[test]
fn mac_ignores_case_and_separator_choice() {
    let a = MacAddress::new("AA-bb-CC:dd-EE-ff");
    let b = MacAddress::new("aa:BB:cc:DD:ee:FF");
    assert_eq!(a, b);
    assert_eq!(a.as_str(), "aa:bb:cc:dd:ee:ff");
}
