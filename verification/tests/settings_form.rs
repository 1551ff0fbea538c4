use unifi_core::keys::{KeyCode, KeyModifiers, KeyPress};
use unifi_core::profile::{AuthMode, FormEffect, Profile};
use unifi_core::settings::{Area, SettingsField, SettingsScreenState, SettingsState};

fn key(code: KeyCode) -> KeyPress {
    KeyPress {
        code,
        modifiers: KeyModifiers { control: false, shift: false, alt: false, other: false },
    }
}

fn profile(mode: &str) -> Profile {
    Profile {
        controller: "https://10.0.0.1".into(),
        site: "lab".into(),
        auth_mode: mode.into(),
        api_key: Some("k".into()),
        api_key_env: None,
        username: Some("admin".into()),
        password: Some("pw".into()),
        ca_cert: None,
        insecure: None,
        timeout: None,
    }
}

#[test]
fn visible_fields_follow_the_mode() {
    assert!(SettingsField::ApiKey.visible_for(AuthMode::ApiKey));
    assert!(!SettingsField::Username.visible_for(AuthMode::ApiKey));
    assert!(!SettingsField::ApiKey.visible_for(AuthMode::Legacy));
    assert!(SettingsField::Password.visible_for(AuthMode::Hybrid));
    let s = SettingsScreenState::new();
    assert_eq!(
        s.visible_fields(),
        vec![
            SettingsField::Url,
            SettingsField::AuthMode,
            SettingsField::ApiKey,
            SettingsField::Site,
            SettingsField::Insecure
        ]
    );
}

#[test]
fn tab_cycles_through_visible_fields() {
    let mut s = SettingsScreenState::new();
    let mut seen = vec![s.active_field()];
    for _ in 0..5 {
        s.handle_key(key(KeyCode::Tab));
        seen.push(s.active_field());
    }
    assert_eq!(seen[5], SettingsField::Url);
    assert_eq!(seen[4], SettingsField::Insecure);
    s.handle_key(key(KeyCode::BackTab));
    assert_eq!(s.active_field(), SettingsField::Insecure);
}

#[test]
fn mode_selector_wraps_and_clamps_focus() {
    let mut s = SettingsScreenState::new();
    s.handle_key(key(KeyCode::Tab));
    assert_eq!(s.active_field(), SettingsField::AuthMode);
    s.handle_key(key(KeyCode::Left));
    let p = s.build_profile();
    assert_eq!(p.auth_mode, "hybrid");
    s.handle_key(key(KeyCode::Right));
    assert_eq!(s.build_profile().auth_mode, "integration");
}

#[test]
fn empty_api_key_is_refused() {
    let mut s = SettingsScreenState::new();
    assert!(matches!(s.handle_key(key(KeyCode::Enter)), FormEffect::Nothing));
    assert_eq!(s.state(), SettingsState::Editing);
    match s.validate() {
        Err(msg) => assert_eq!(msg, "API key cannot be empty"),
        Ok(()) => panic!("validation should fail"),
    }
}

#[test]
fn loaded_profile_is_tested_then_applied() {
    let mut s = SettingsScreenState::from_profile("home", &profile("legacy"));
    assert_eq!(s.profile_name(), "home");
    match s.handle_key(key(KeyCode::Enter)) {
        FormEffect::TestConnection(p) => {
            assert_eq!(p.auth_mode, "legacy");
            assert_eq!(p.controller, "https://10.0.0.1");
            assert_eq!(p.api_key, None);
            assert_eq!(p.username.as_deref(), Some("admin"));
            assert_eq!(p.insecure, Some(false));
        }
        other => panic!("expected a connection test, got {other:?}"),
    }
    assert_eq!(s.state(), SettingsState::Testing);
    assert!(matches!(s.handle_key(key(KeyCode::Char('x'))), FormEffect::Nothing));
    assert!(matches!(s.apply_test_result(Ok(())), FormEffect::Apply(_)));
    assert!(matches!(s.apply_test_result(Err("boom".into())), FormEffect::Nothing));
    assert_eq!(s.state(), SettingsState::Editing);
}

#[test]
fn escape_closes_the_form() {
    let mut s = SettingsScreenState::new();
    assert!(matches!(s.handle_key(key(KeyCode::Esc)), FormEffect::Close));
}

#[test]
fn click_on_toggle_flips_it_and_click_on_selector_cycles() {
    let mut s = SettingsScreenState::new();
    let area = Area { x: 0, y: 0, width: 80, height: 40 };
    // Panel 62x32 centered: top row 4, fields start at row 6.
    s.handle_click(6 + 4 + 4 + 4 + 4, 10, area);
    assert_eq!(s.active_field(), SettingsField::Insecure);
    assert_eq!(s.build_profile().insecure, Some(false));
    s.handle_click(6 + 4, 60, area);
    assert_eq!(s.active_field(), SettingsField::AuthMode);
    assert_eq!(s.build_profile().auth_mode, "legacy");
    s.handle_click(200, 10, area);
    assert_eq!(s.active_field(), SettingsField::AuthMode);
}
