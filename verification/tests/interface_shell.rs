use unifi_core::action::{Action, ConfirmAction};
use unifi_core::entity_id::EntityId;
use unifi_core::keys::{KeyCode, KeyModifiers, KeyPress};
use unifi_core::screen::ScreenId;
use unifi_core::shell::{AppEffect, AppState, KeyRoute};
use unifi_core::command::Command;
use unifi_core::store::DataStore;

fn plain(code: KeyCode) -> KeyPress {
    KeyPress {
        code,
        modifiers: KeyModifiers { control: false, shift: false, alt: false, other: false },
    }
}

#[test]
fn starts_on_setup_without_a_controller() {
    assert_eq!(AppState::new(false).active_screen, ScreenId::Setup);
    assert_eq!(AppState::new(true).active_screen, ScreenId::Dashboard);
}

#[test]
fn number_keys_and_tab_switch_screens() {
    let mut s = AppState::new(true);
    assert!(matches!(
        s.route_key(plain(KeyCode::Char('4'))),
        KeyRoute::Emit(Action::SwitchScreen(ScreenId::Networks))
    ));
    assert!(matches!(
        s.route_key(plain(KeyCode::Tab)),
        KeyRoute::Emit(Action::SwitchScreen(ScreenId::Devices))
    ));
    assert!(matches!(s.route_key(plain(KeyCode::Char('q'))), KeyRoute::Emit(Action::Quit)));
    assert!(matches!(s.route_key(plain(KeyCode::Char('x'))), KeyRoute::ToScreen(ScreenId::Dashboard)));
}

#[test]
fn setup_takes_every_key_but_ctrl_c() {
    let mut s = AppState::new(false);
    assert!(matches!(s.route_key(plain(KeyCode::Char('q'))), KeyRoute::ToScreen(ScreenId::Setup)));
    let ctrl_c = KeyPress {
        code: KeyCode::Char('c'),
        modifiers: KeyModifiers { control: true, shift: false, alt: false, other: false },
    };
    assert!(matches!(s.route_key(ctrl_c), KeyRoute::Emit(Action::Quit)));
}

#[test]
fn search_edits_its_query() {
    let mut s = AppState::new(true);
    s.process_action(Action::OpenSearch, None);
    match s.route_key(plain(KeyCode::Char('a'))) {
        KeyRoute::Emit(Action::SearchInput(q)) => assert_eq!(q, "a"),
        other => panic!("unexpected route {other:?}"),
    }
    match s.route_key(plain(KeyCode::Backspace)) {
        KeyRoute::Emit(Action::SearchInput(q)) => assert_eq!(q, ""),
        other => panic!("unexpected route {other:?}"),
    }
    assert!(matches!(s.route_key(plain(KeyCode::Esc)), KeyRoute::Emit(Action::CloseSearch)));
}

#[test]
fn switching_and_going_back() {
    let mut s = AppState::new(true);
    assert!(matches!(s.process_action(Action::SwitchScreen(ScreenId::Devices), None), AppEffect::Nothing));
    match s.process_action(Action::GoBack, None) {
        AppEffect::Send(Action::SwitchScreen(ScreenId::Dashboard)) => {}
        other => panic!("unexpected effect {other:?}"),
    }
    assert!(matches!(s.process_action(Action::SwitchScreen(ScreenId::Stats), None), AppEffect::FetchStats));
}

#[test]
fn settings_open_and_close_back() {
    let mut s = AppState::new(true);
    s.process_action(Action::SwitchScreen(ScreenId::Events), None);
    s.process_action(Action::OpenSettings, None);
    assert_eq!(s.active_screen, ScreenId::Settings);
    s.process_action(Action::CloseSettings, None);
    assert_eq!(s.active_screen, ScreenId::Events);
}

#[test]
fn restart_request_opens_a_dialog_named_by_id() {
    let mut s = AppState::new(true);
    let store = DataStore::new();
    match s.process_action(Action::RequestRestart(EntityId::Legacy("dev1".into())), Some(&store)) {
        AppEffect::Send(Action::ShowConfirm(ConfirmAction::RestartDevice { name, .. })) => {
            assert_eq!(name, "dev1")
        }
        other => panic!("unexpected effect {other:?}"),
    }
}

#[test]
fn confirming_runs_the_command_or_reports_no_controller() {
    let mut s = AppState::new(true);
    let store = DataStore::new();
    let confirm = ConfirmAction::RestartDevice { id: EntityId::Uuid(1), name: "ap".into() };
    s.process_action(Action::ShowConfirm(confirm.clone()), Some(&store));
    assert!(matches!(s.route_key(plain(KeyCode::Char('x'))), KeyRoute::Ignore));
    match s.process_action(Action::ConfirmYes, Some(&store)) {
        AppEffect::Execute { command: Command::RestartDevice { .. }, message } => {
            assert_eq!(message, "Restarting ap")
        }
        other => panic!("unexpected effect {other:?}"),
    }
    assert!(s.pending_confirm.is_none());
    s.process_action(Action::ShowConfirm(confirm), None);
    assert!(matches!(s.process_action(Action::ConfirmYes, None), AppEffect::NotConnected));
    let port = ConfirmAction::PowerCyclePort { device_id: EntityId::Uuid(1), port_idx: 12 };
    s.process_action(Action::ShowConfirm(port), Some(&store));
    match s.process_action(Action::ConfirmYes, Some(&store)) {
        AppEffect::Execute { message, .. } => assert_eq!(message, "Power cycling port 12"),
        other => panic!("unexpected effect {other:?}"),
    }
}

#[test]
fn help_toggles_and_quit_stops() {
    let mut s = AppState::new(true);
    s.process_action(Action::ToggleHelp, None);
    assert!(s.help_visible);
    assert!(matches!(s.route_key(plain(KeyCode::Char('q'))), KeyRoute::Ignore));
    s.process_action(Action::ToggleHelp, None);
    assert!(!s.help_visible);
    s.process_action(Action::Quit, None);
    assert!(!s.running);
}
