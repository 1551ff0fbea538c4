use unifi_core::convert::{
    channel_band,
    infer_device_type, infer_device_type_integration, map_device_state, map_event_category,
    LegacySite,
};
use unifi_core::model::{DeviceState, DeviceType, EventCategory, FrequencyBand, Site};

#[test]
fn device_type_from_legacy_type_field() {
    assert_eq!(infer_device_type("uap", None), DeviceType::AccessPoint);
    assert_eq!(infer_device_type("usw", None), DeviceType::Switch);
    assert_eq!(infer_device_type("ugw", None), DeviceType::Gateway);
    assert_eq!(infer_device_type("udm", None), DeviceType::Gateway);
}

#[test]
fn convert_device_type_from_legacy_type_field() {
    assert_eq!(infer_device_type("uap", None), DeviceType::AccessPoint);
    assert_eq!(infer_device_type("usw", None), DeviceType::Switch);
    assert_eq!(infer_device_type("ugw", None), DeviceType::Gateway);
    assert_eq!(infer_device_type("udm", None), DeviceType::Gateway);
}

#[test]
fn device_type_from_model_fallback() {
    assert_eq!(
        infer_device_type("unknown", Some(&"UAP-AC-Pro".to_string())),
        DeviceType::AccessPoint
    );
    assert_eq!(
        infer_device_type("unknown", Some(&"U6-LR".to_string())),
        DeviceType::AccessPoint
    );
    assert_eq!(
        infer_device_type("unknown", Some(&"USW-24-PoE".to_string())),
        DeviceType::Switch
    );
    assert_eq!(
        infer_device_type("unknown", Some(&"UDM-Pro".to_string())),
        DeviceType::Gateway
    );
}

#[test]
fn convert_device_type_from_model_fallback() {
    assert_eq!(
        infer_device_type("unknown", Some(&"UAP-AC-Pro".to_string())),
        DeviceType::AccessPoint
    );
    assert_eq!(
        infer_device_type("unknown", Some(&"U6-LR".to_string())),
        DeviceType::AccessPoint
    );
    assert_eq!(
        infer_device_type("unknown", Some(&"USW-24-PoE".to_string())),
        DeviceType::Switch
    );
    assert_eq!(
        infer_device_type("unknown", Some(&"UDM-Pro".to_string())),
        DeviceType::Gateway
    );
    assert_eq!(
        infer_device_type("unknown", Some(&"UCG-Max".to_string())),
        DeviceType::Gateway
    );
}

#[test]
fn integration_device_type_gateway_by_model() {
    assert_eq!(
        infer_device_type_integration(&["switching".to_string()], "UCG-Max"),
        DeviceType::Gateway
    );
    assert_eq!(
        infer_device_type_integration(&["switching".to_string(), "routing".to_string()], "UDM-Pro"),
        DeviceType::Gateway
    );
}

#[test]
fn device_state_mapping() {
    assert_eq!(map_device_state(0), DeviceState::Offline);
    assert_eq!(map_device_state(1), DeviceState::Online);
    assert_eq!(map_device_state(2), DeviceState::PendingAdoption);
    assert_eq!(map_device_state(4), DeviceState::Updating);
    assert_eq!(map_device_state(5), DeviceState::GettingReady);
    assert_eq!(map_device_state(99), DeviceState::Unknown);
}

#[test]
fn convert_device_state_mapping() {
    assert_eq!(map_device_state(0), DeviceState::Offline);
    assert_eq!(map_device_state(1), DeviceState::Online);
    assert_eq!(map_device_state(2), DeviceState::PendingAdoption);
    assert_eq!(map_device_state(4), DeviceState::Updating);
    assert_eq!(map_device_state(5), DeviceState::GettingReady);
    assert_eq!(map_device_state(99), DeviceState::Unknown);
}

#[test]
fn legacy_site_uses_desc_as_display_name() {
    let site = LegacySite {
        id: "abc123".into(),
        name: "default".into(),
        desc: Some("Main Office".into()),
        role: None,
    };
    let converted: Site = Site::from_legacy(site);
    assert_eq!(converted.internal_name, "default");
    assert_eq!(converted.name, "Main Office");
}

#[test]
fn convert_legacy_site_uses_desc_as_display_name() {
    let site = LegacySite {
        id: "abc123".into(),
        name: "default".into(),
        desc: Some("Main Office".into()),
        role: None,
    };
    let converted: Site = Site::from_legacy(site);
    assert_eq!(converted.internal_name, "default");
    assert_eq!(converted.name, "Main Office");
}

#[test]
fn legacy_site_falls_back_to_name_when_desc_empty() {
    let site = LegacySite {
        id: "abc123".into(),
        name: "branch-1".into(),
        desc: Some("".into()),
        role: None,
    };
    let converted: Site = Site::from_legacy(site);
    assert_eq!(converted.name, "branch-1");
}

#[test]
fn convert_legacy_site_falls_back_to_name_when_desc_empty() {
    let site = LegacySite {
        id: "abc123".into(),
        name: "branch-1".into(),
        desc: Some(String::new()),
        role: None,
    };
    let converted: Site = Site::from_legacy(site);
    assert_eq!(converted.name, "branch-1");
}

#[test]
fn event_category_mapping() {
    assert_eq!(map_event_category(Some(&"wlan".to_string())), EventCategory::Network);
    assert_eq!(map_event_category(Some(&"device".to_string())), EventCategory::Device);
    assert_eq!(map_event_category(Some(&"admin".to_string())), EventCategory::Admin);
    assert_eq!(map_event_category(None), EventCategory::Unknown);
}

#[test]
fn convert_event_category_mapping() {
    assert_eq!(map_event_category(Some(&"wlan".to_string())), EventCategory::Network);
    assert_eq!(map_event_category(Some(&"device".to_string())), EventCategory::Device);
    assert_eq!(map_event_category(Some(&"admin".to_string())), EventCategory::Admin);
    assert_eq!(map_event_category(None), EventCategory::Unknown);
}

#[test]
fn model_prefix_is_matched_case_insensitively() {
    assert_eq!(infer_device_type("unknown", Some(&"usw-flex".to_string())), DeviceType::Switch);
    assert_eq!(infer_device_type("unknown", Some(&"uap-ac-lite".to_string())), DeviceType::AccessPoint);
}

#[test]
fn channel_bands() {
    assert_eq!(channel_band(Some(6)), Some(FrequencyBand::Ghz2_4));
    assert_eq!(channel_band(Some(36)), Some(FrequencyBand::Ghz5));
    assert_eq!(channel_band(Some(149)), Some(FrequencyBand::Ghz5));
    assert_eq!(channel_band(Some(80)), Some(FrequencyBand::Ghz6));
    assert_eq!(channel_band(Some(0)), Some(FrequencyBand::Ghz6));
    assert_eq!(channel_band(None), None);
}

#[test]
fn model_prefix_ignores_letter_case() {
    let lower = "u6-lite".to_string();
    let upper = "U6-LITE".to_string();
    assert_eq!(infer_device_type("", Some(&lower)), DeviceType::AccessPoint);
    assert_eq!(infer_device_type("", Some(&upper)), DeviceType::AccessPoint);
    let unknown = "xyz-9".to_string();
    assert_eq!(infer_device_type("other", Some(&unknown)), DeviceType::Other);
    assert_eq!(infer_device_type("other", None), DeviceType::Other);
}
