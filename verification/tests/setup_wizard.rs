use unifi_core::keys::{KeyCode, KeyModifiers, KeyPress};
use unifi_core::onboarding::{OnboardingState, WizardStep};
use unifi_core::profile::{AuthMode, FormEffect};

fn key(code: KeyCode) -> KeyPress {
    KeyPress {
        code,
        modifiers: KeyModifiers { control: false, shift: false, alt: false, other: false },
    }
}

fn ctrl(c: char) -> KeyPress {
    KeyPress {
        code: KeyCode::Char(c),
        modifiers: KeyModifiers { control: true, shift: false, alt: false, other: false },
    }
}

fn type_text(w: &mut OnboardingState, text: &str) {
    for c in text.chars() {
        w.handle_key(key(KeyCode::Char(c)));
    }
}

#[test]
fn step_indices_follow_the_flow() {
    assert_eq!(WizardStep::Welcome.index(), 0);
    assert_eq!(WizardStep::Url.index(), 1);
    assert_eq!(WizardStep::Credentials.index(), 3);
    assert_eq!(WizardStep::Done.index(), 6);
}

#[test]
fn wizard_runs_through_to_a_connection_test() {
    let mut w = OnboardingState::new();
    assert!(matches!(w.handle_key(key(KeyCode::Enter)), FormEffect::Nothing));
    assert_eq!(w.step(), WizardStep::Url);
    assert!(matches!(w.handle_key(key(KeyCode::Enter)), FormEffect::Nothing));
    assert_eq!(w.step(), WizardStep::AuthMode);
    w.handle_key(key(KeyCode::Enter));
    assert_eq!(w.step(), WizardStep::Credentials);
    type_text(&mut w, "  secret-key ");
    w.handle_key(key(KeyCode::Enter));
    assert_eq!(w.step(), WizardStep::Site);
    match w.handle_key(key(KeyCode::Enter)) {
        FormEffect::TestConnection(p) => {
            assert_eq!(p.controller, "https://192.168.1.1");
            assert_eq!(p.site, "default");
            assert_eq!(p.auth_mode, "integration");
            assert_eq!(p.api_key.as_deref(), Some("secret-key"));
            assert_eq!(p.username, None);
            assert_eq!(p.password, None);
            assert_eq!(p.insecure, Some(true));
        }
        other => panic!("expected a connection test, got {other:?}"),
    }
    assert_eq!(w.step(), WizardStep::Testing);
    w.apply_test_result(Ok(()));
    assert_eq!(w.step(), WizardStep::Done);
    assert!(matches!(w.handle_key(key(KeyCode::Enter)), FormEffect::Apply(_)));
}

#[test]
fn empty_url_is_refused_with_a_message() {
    let mut w = OnboardingState::new();
    w.handle_key(key(KeyCode::Enter));
    for _ in 0.."https://192.168.1.1".len() {
        w.handle_key(key(KeyCode::Backspace));
    }
    type_text(&mut w, "   ");
    w.handle_key(key(KeyCode::Enter));
    assert_eq!(w.step(), WizardStep::Url);
    assert_eq!(w.error().as_deref(), Some("URL cannot be empty"));
}

#[test]
fn unparsable_url_is_refused_with_a_message() {
    let mut w = OnboardingState::new();
    w.handle_key(key(KeyCode::Enter));
    for _ in 0.."https://192.168.1.1".len() {
        w.handle_key(key(KeyCode::Backspace));
    }
    type_text(&mut w, "not a url");
    w.handle_key(key(KeyCode::Enter));
    assert_eq!(w.step(), WizardStep::Url);
    assert_eq!(w.error().as_deref(), Some("Invalid URL format"));
    w.handle_key(key(KeyCode::Char('x')));
    assert_eq!(w.error(), None);
}

#[test]
fn legacy_mode_asks_for_username_and_password() {
    let mut w = OnboardingState::new();
    w.handle_key(key(KeyCode::Enter));
    w.handle_key(key(KeyCode::Enter));
    w.handle_key(key(KeyCode::Down));
    w.handle_key(key(KeyCode::Enter));
    assert_eq!(w.step(), WizardStep::Credentials);
    w.handle_key(key(KeyCode::Enter));
    assert_eq!(w.error().as_deref(), Some("Username cannot be empty"));
    type_text(&mut w, "admin");
    w.handle_key(key(KeyCode::Enter));
    assert_eq!(w.error().as_deref(), Some("Password cannot be empty"));
    w.handle_key(key(KeyCode::Tab));
    type_text(&mut w, " pw ");
    w.handle_key(key(KeyCode::Enter));
    assert_eq!(w.step(), WizardStep::Site);
    let p = w.build_profile();
    assert_eq!(p.auth_mode, "legacy");
    assert_eq!(p.username.as_deref(), Some("admin"));
    assert_eq!(p.password.as_deref(), Some(" pw "));
    assert_eq!(p.api_key, None);
}

#[test]
fn escape_steps_back_and_cancels_the_test() {
    let mut w = OnboardingState::new();
    w.handle_key(key(KeyCode::Enter));
    w.handle_key(key(KeyCode::Esc));
    assert_eq!(w.step(), WizardStep::Welcome);
    w.handle_key(key(KeyCode::Enter));
    w.handle_key(key(KeyCode::Enter));
    w.handle_key(key(KeyCode::Enter));
    type_text(&mut w, "k");
    w.handle_key(key(KeyCode::Enter));
    w.handle_key(key(KeyCode::Enter));
    assert_eq!(w.step(), WizardStep::Testing);
    w.handle_key(key(KeyCode::Esc));
    assert_eq!(w.step(), WizardStep::Site);
}

#[test]
fn failed_test_keeps_the_message_and_the_step() {
    let mut w = OnboardingState::new();
    w.apply_test_result(Err("connection refused".to_string()));
    assert_eq!(w.step(), WizardStep::Welcome);
}

#[test]
fn control_u_toggles_password_visibility_instead_of_typing() {
    let mut w = OnboardingState::new();
    w.handle_key(key(KeyCode::Enter));
    w.handle_key(key(KeyCode::Enter));
    w.handle_key(key(KeyCode::Enter));
    w.handle_key(ctrl('u'));
    let p = w.build_profile();
    assert_eq!(p.api_key.as_deref(), Some(""));
}

#[test]
fn auth_mode_values_round_trip() {
    for m in [AuthMode::ApiKey, AuthMode::Legacy, AuthMode::Hybrid] {
        assert_eq!(AuthMode::from_config(m.config_value()), m);
    }
    assert_eq!(AuthMode::from_config("something"), AuthMode::ApiKey);
    assert_eq!(AuthMode::Hybrid.label(), "Hybrid (API Key + Credentials)");
    assert_eq!(AuthMode::ApiKey.description(), "Recommended for most setups");
}
