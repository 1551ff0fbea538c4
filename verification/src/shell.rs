//! The terminal interface's own state and decisions: which keys are
//! global, how actions change the state, which commands a confirmed
//! dialog runs. Drawing, timers and running commands are the caller's.

use vstd::prelude::*;

use crate::action::{Action, ConfirmAction};
use crate::command::Command;
use crate::entity_id::{id_text, normalized_mac, EntityId, MacAddress};
use crate::keys::{KeyCode, KeyPress};
use crate::screen::{screen_at, tab_index, ScreenId};
use crate::store::DataStore;
use crate::text::{concat, decimal, owned, pop_char, push_char, u64_to_string};

verus! {

/// Connection status as the interface shows it.
#[derive(Debug, Clone, Copy, PartialEq, Eq, Structural)]
pub enum ConnectionStatus {
    Disconnected,
    Connecting,
    Connected,
    Reconnecting,
}

impl Default for ConnectionStatus {
    fn default() -> (s: Self)
        ensures
            s == ConnectionStatus::Disconnected,
    {
        ConnectionStatus::Disconnected
    }
}

/// State of the interface shell.
#[derive(Debug)]
pub struct AppState {
    pub active_screen: ScreenId,
    /// The screen to return to (GoBack, closing the settings).
    pub previous_screen: Option<ScreenId>,
    pub running: bool,
    pub connection_status: ConnectionStatus,
    pub help_visible: bool,
    pub search_active: bool,
    pub search_query: String,
    pub terminal_size: (u16, u16),
    /// A confirmation dialog, which captures all keys while open.
    pub pending_confirm: Option<ConfirmAction>,
}

/// Where a key press goes.
#[derive(Debug)]
pub enum KeyRoute {
    /// The shell turns it into this action.
    Emit(Action),
    /// The screen's own key handling takes it.
    ToScreen(ScreenId),
    /// Nothing happens.
    Ignore,
}

/// The screen a number key 1-8 selects.
pub open spec fn number_key_screen(c: char) -> ScreenId {
    screen_at(c as int - '1' as int)
}

/// Whether `c` is one of the number keys 1-8.
pub open spec fn is_number_key(c: char) -> bool {
    '1' as int <= c as int && c as int <= '8' as int
}

/// How the shell routes a key press. The setup wizard and the settings
/// form take every key but Ctrl+C; an open confirmation dialog takes
/// y/Y (yes), n/N or Esc (no); the search bar edits its query; the help
/// overlay closes on Esc or ?; otherwise the global keys (Ctrl+C and q
/// quit, ? help, / search, `,` settings, 1-8 and Tab / Shift+Tab switch
/// screens, Esc goes back) come before the active screen's.
pub open spec fn key_routed(before: AppState, key: KeyPress, after: AppState, r: KeyRoute) -> bool {
    let m = key.modifiers;
    let ctrl_c = m.is_control_only() && key.code == KeyCode::Char('c');
    if before.active_screen == ScreenId::Setup || before.active_screen == ScreenId::Settings {
        after == before && if ctrl_c {
            r matches KeyRoute::Emit(Action::Quit)
        } else {
            r matches KeyRoute::ToScreen(s) && s == before.active_screen
        }
    } else if before.pending_confirm is Some {
        after == before && match key.code {
            KeyCode::Char('y') | KeyCode::Char('Y') => r matches KeyRoute::Emit(Action::ConfirmYes),
            KeyCode::Char('n') | KeyCode::Char('N') | KeyCode::Esc => r matches KeyRoute::Emit(
                Action::ConfirmNo,
            ),
            _ => r is Ignore,
        }
    } else if before.search_active {
        match key.code {
            KeyCode::Esc => after == (AppState { search_query: after.search_query, ..before })
                && after.search_query@.len() == 0 && r matches KeyRoute::Emit(Action::CloseSearch),
            KeyCode::Enter => after == before && r matches KeyRoute::Emit(Action::SearchSubmit),
            KeyCode::Backspace => after == (AppState { search_query: after.search_query, ..before })
                && after.search_query@ == crate::text::drop_last_char(before.search_query@) && (r matches KeyRoute::Emit(
                Action::SearchInput(q),
            ) && q@ == after.search_query@),
            KeyCode::Char(c) => after == (AppState { search_query: after.search_query, ..before })
                && after.search_query@ == before.search_query@.push(c) && (r matches KeyRoute::Emit(
                Action::SearchInput(q),
            ) && q@ == after.search_query@),
            _ => after == before && r is Ignore,
        }
    } else if before.help_visible {
        after == before && match key.code {
            KeyCode::Esc | KeyCode::Char('?') => r matches KeyRoute::Emit(Action::ToggleHelp),
            _ => r is Ignore,
        }
    } else {
        after == before && if ctrl_c || (m.is_none() && key.code == KeyCode::Char('q')) {
            r matches KeyRoute::Emit(Action::Quit)
        } else if m.is_none() && key.code == KeyCode::Char('?') {
            r matches KeyRoute::Emit(Action::ToggleHelp)
        } else if m.is_none() && key.code == KeyCode::Char('/') {
            r matches KeyRoute::Emit(Action::OpenSearch)
        } else if m.is_none() && key.code == KeyCode::Char(',') {
            r matches KeyRoute::Emit(Action::OpenSettings)
        } else if m.is_none() && (key.code matches KeyCode::Char(c) && is_number_key(c)) {
            r matches KeyRoute::Emit(Action::SwitchScreen(s)) && s == number_key_screen(c_of(key.code))
        } else if m.is_none() && key.code == KeyCode::Tab {
            r matches KeyRoute::Emit(Action::SwitchScreen(s)) && s == screen_at(
                (tab_index(before.active_screen) + 1) % 8,
            )
        } else if m.is_shift_only() && key.code == KeyCode::BackTab {
            r matches KeyRoute::Emit(Action::SwitchScreen(s)) && s == screen_at(
                (tab_index(before.active_screen) + 8 - 1) % 8,
            )
        } else if m.is_none() && key.code == KeyCode::Esc {
            r matches KeyRoute::Emit(Action::GoBack)
        } else {
            r matches KeyRoute::ToScreen(s) && s == before.active_screen
        }
    }
}

/// The character of a character key.
pub open spec fn c_of(code: KeyCode) -> char {
    match code {
        KeyCode::Char(c) => c,
        _ => ' ',
    }
}

/// What processing an action asks of the application.
#[derive(Debug)]
pub enum AppEffect {
    Nothing,
    /// Queue this action.
    Send(Action),
    /// Run this command; report `message` when it succeeds.
    Execute { command: Command, message: String },
    /// A command was asked for without a controller: report it.
    NotConnected,
    /// Fetch the statistics for the default period.
    FetchStats,
    /// Not the shell's: hand the action to the active screen.
    Forward(Action),
}

/// The name a device is shown by: its name, or its id.
pub open spec fn device_name_spec(store: Option<&DataStore>, id: EntityId) -> Seq<char> {
    match store {
        Some(st) => if st.devices.id_index().dom().contains(id@) {
            match st.devices.by_key()[st.devices.id_index()[id@]].name {
                Some(n) => n@,
                None => id_text(id@),
            }
        } else {
            id_text(id@)
        },
        None => id_text(id@),
    }
}

/// The name a client is shown by: its name, else its hostname, else its
/// id.
pub open spec fn client_name_spec(store: Option<&DataStore>, id: EntityId) -> Seq<char> {
    match store {
        Some(st) => if st.clients.id_index().dom().contains(id@) {
            let c = st.clients.by_key()[st.clients.id_index()[id@]];
            match c.name {
                Some(n) => n@,
                None => match c.hostname {
                    Some(h) => h@,
                    None => id_text(id@),
                },
            }
        } else {
            id_text(id@)
        },
        None => id_text(id@),
    }
}

/// The MAC of the device with id `id`, if the store has it.
pub open spec fn device_mac_spec(store: Option<&DataStore>, id: EntityId) -> Option<Seq<char>> {
    match store {
        Some(st) => if st.devices.id_index().dom().contains(id@) {
            Some(st.devices.by_key()[st.devices.id_index()[id@]].mac@)
        } else {
            None
        },
        None => None,
    }
}

/// The MAC of the client with id `id`, if the store has it.
pub open spec fn client_mac_spec(store: Option<&DataStore>, id: EntityId) -> Option<Seq<char>> {
    match store {
        Some(st) => if st.clients.id_index().dom().contains(id@) {
            Some(st.clients.by_key()[st.clients.id_index()[id@]].mac@)
        } else {
            None
        },
        None => None,
    }
}

/// The store, if any, is well formed.
pub open spec fn store_wf(store: Option<&DataStore>) -> bool {
    match store {
        Some(st) => st.wf(),
        None => true,
    }
}

/// The name a device is shown by.
pub fn resolve_device_name(store: Option<&DataStore>, id: &EntityId) -> (n: String)
    requires
        store_wf(store),
    ensures
        n@ == device_name_spec(store, *id),
{
    if let Some(st) = store {
        if let Some(d) = st.device_by_id(id) {
            if let Some(name) = &d.name {
                return name.clone();
            }
        }
    }
    id.to_string()
}

/// The name a client is shown by.
pub fn resolve_client_name(store: Option<&DataStore>, id: &EntityId) -> (n: String)
    requires
        store_wf(store),
    ensures
        n@ == client_name_spec(store, *id),
{
    if let Some(st) = store {
        if let Some(c) = st.client_by_id(id) {
            if let Some(name) = &c.name {
                return name.clone();
            }
            if let Some(host) = &c.hostname {
                return host.clone();
            }
        }
    }
    id.to_string()
}

/// The MAC of a device, if the store has it.
pub fn resolve_device_mac(store: Option<&DataStore>, id: &EntityId) -> (m: Option<MacAddress>)
    requires
        store_wf(store),
    ensures
        match m {
            Some(mac) => device_mac_spec(store, *id) == Some(mac@),
            None => device_mac_spec(store, *id) is None,
        },
{
    if let Some(st) = store {
        if let Some(d) = st.device_by_id(id) {
            return Some(d.mac.duplicate());
        }
    }
    None
}

/// The MAC of a client, if the store has it.
pub fn resolve_client_mac(store: Option<&DataStore>, id: &EntityId) -> (m: Option<MacAddress>)
    requires
        store_wf(store),
    ensures
        match m {
            Some(mac) => client_mac_spec(store, *id) == Some(mac@),
            None => client_mac_spec(store, *id) is None,
        },
{
    if let Some(st) = store {
        if let Some(c) = st.client_by_id(id) {
            return Some(c.mac.duplicate());
        }
    }
    None
}

/// Running a command: with a controller (a store) it runs with its
/// success message, without one the user is told.
pub open spec fn executes(e: AppEffect, store: Option<&DataStore>, cmd: spec_fn(Command) -> bool, msg: Seq<char>) -> bool {
    if store is Some {
        e matches AppEffect::Execute { command, message } && cmd(command) && message@ == msg
    } else {
        e is NotConnected
    }
}

fn execute(store: Option<&DataStore>, command: Command, message: String) -> (e: AppEffect)
    ensures
        store is Some ==> (e matches AppEffect::Execute { command: c, message: m } && c == command && m
            == message),
        store is None ==> e is NotConnected,
{
    if store.is_some() {
        AppEffect::Execute { command, message }
    } else {
        AppEffect::NotConnected
    }
}

/// What confirming a dialog runs: the destructive command it asked about,
/// with its success message; client commands need the client's MAC.
pub open spec fn confirmed(c: ConfirmAction, store: Option<&DataStore>, e: AppEffect) -> bool {
    match c {
        ConfirmAction::RestartDevice { id, name } => executes(
            e,
            store,
            |cmd: Command| cmd matches Command::RestartDevice { id: i } && i == id,
            "Restarting "@ + name@,
        ),
        ConfirmAction::UnadoptDevice { id, name } => executes(
            e,
            store,
            |cmd: Command| cmd matches Command::RemoveDevice { id: i } && i == id,
            "Removed "@ + name@,
        ),
        ConfirmAction::AdoptDevice { mac } => executes(
            e,
            store,
            |cmd: Command| cmd matches Command::AdoptDevice { mac: m } && m@ == normalized_mac(mac@),
            "Adopting "@ + mac@,
        ),
        ConfirmAction::PowerCyclePort { device_id, port_idx } => executes(
            e,
            store,
            |cmd: Command|
                cmd matches Command::PowerCyclePort { device_id: d, port_idx: p } && d == device_id && p
                    == port_idx,
            "Power cycling port "@ + decimal(port_idx as nat),
        ),
        ConfirmAction::BlockClient { id, name } => match client_mac_spec(store, id) {
            Some(mac) => executes(
                e,
                store,
                |cmd: Command| cmd matches Command::BlockClient { mac: m } && m@ == mac,
                "Blocked "@ + name@,
            ),
            None => e is Nothing,
        },
        ConfirmAction::UnblockClient { id, name } => match client_mac_spec(store, id) {
            Some(mac) => executes(
                e,
                store,
                |cmd: Command| cmd matches Command::UnblockClient { mac: m } && m@ == mac,
                "Unblocked "@ + name@,
            ),
            None => e is Nothing,
        },
        ConfirmAction::ForgetClient { id, name } => match client_mac_spec(store, id) {
            Some(mac) => executes(
                e,
                store,
                |cmd: Command| cmd matches Command::ForgetClient { mac: m } && m@ == mac,
                "Forgot "@ + name@,
            ),
            None => e is Nothing,
        },
        ConfirmAction::DeleteFirewallPolicy { id, name } => executes(
            e,
            store,
            |cmd: Command| cmd matches Command::DeleteFirewallPolicy { id: i } && i == id,
            "Deleted policy "@ + name@,
        ),
    }
}

/// The command a confirmed dialog runs (see `confirmed`).
pub fn confirm_effect(c: ConfirmAction, store: Option<&DataStore>) -> (e: AppEffect)
    requires
        store_wf(store),
    ensures
        confirmed(c, store, e),
{
    match c {
        ConfirmAction::RestartDevice { id, name } => {
            let msg = concat("Restarting ", name.as_str());
            execute(store, Command::RestartDevice { id }, msg)
        },
        ConfirmAction::UnadoptDevice { id, name } => {
            let msg = concat("Removed ", name.as_str());
            execute(store, Command::RemoveDevice { id }, msg)
        },
        ConfirmAction::AdoptDevice { mac } => {
            let m = MacAddress::new(mac.as_str());
            let msg = concat("Adopting ", mac.as_str());
            execute(store, Command::AdoptDevice { mac: m }, msg)
        },
        ConfirmAction::PowerCyclePort { device_id, port_idx } => {
            let n = u64_to_string(port_idx as u64);
            let msg = concat("Power cycling port ", n.as_str());
            execute(store, Command::PowerCyclePort { device_id, port_idx }, msg)
        },
        ConfirmAction::BlockClient { id, name } => match resolve_client_mac(store, &id) {
            Some(mac) => {
                let msg = concat("Blocked ", name.as_str());
                execute(store, Command::BlockClient { mac }, msg)
            },
            None => AppEffect::Nothing,
        },
        ConfirmAction::UnblockClient { id, name } => match resolve_client_mac(store, &id) {
            Some(mac) => {
                let msg = concat("Unblocked ", name.as_str());
                execute(store, Command::UnblockClient { mac }, msg)
            },
            None => AppEffect::Nothing,
        },
        ConfirmAction::ForgetClient { id, name } => match resolve_client_mac(store, &id) {
            Some(mac) => {
                let msg = concat("Forgot ", name.as_str());
                execute(store, Command::ForgetClient { mac }, msg)
            },
            None => AppEffect::Nothing,
        },
        ConfirmAction::DeleteFirewallPolicy { id, name } => {
            let msg = concat("Deleted policy ", name.as_str());
            execute(store, Command::DeleteFirewallPolicy { id }, msg)
        },
    }
}

/// How an action changes the shell, and what it asks of the application.
/// Quit stops the loop; Resize records the size; switching to another
/// screen remembers the one left (arriving at the statistics fetches
/// them); GoBack switches to the remembered screen; help, search,
/// connection status and confirmation dialogs change as named; device and
/// client requests open a confirmation dialog (restart, unadopt, block,
/// unblock, forget) or run at once (locate, kick); a saved network edit
/// runs its update; the settings open over any screen but the wizard and
/// close back to the screen they were opened from. Everything else goes to
/// the active screen.
pub open spec fn processed(
    before: AppState,
    action: Action,
    store: Option<&DataStore>,
    after: AppState,
    e: AppEffect,
) -> bool {
    match action {
        Action::Quit => after == (AppState { running: false, ..before }) && e is Nothing,
        Action::Resize(w, h) => after == (AppState { terminal_size: (w, h), ..before }) && e is Nothing,
        Action::SwitchScreen(t) => if t != before.active_screen {
            after == (AppState {
                previous_screen: Some(before.active_screen),
                active_screen: t,
                ..before
            }) && if t == ScreenId::Stats {
                e is FetchStats
            } else {
                e is Nothing
            }
        } else {
            after == before && e is Nothing
        },
        Action::GoBack => match before.previous_screen {
            Some(p) => after == (AppState { previous_screen: None, ..before }) && (e matches AppEffect::Send(
                Action::SwitchScreen(s),
            ) && s == p),
            None => after == before && e is Nothing,
        },
        Action::ToggleHelp => after == (AppState { help_visible: !before.help_visible, ..before })
            && e is Nothing,
        Action::OpenSearch => after == (AppState {
            search_active: true,
            search_query: after.search_query,
            ..before
        }) && after.search_query@.len() == 0 && e is Nothing,
        Action::CloseSearch => after == (AppState {
            search_active: false,
            search_query: after.search_query,
            ..before
        }) && after.search_query@.len() == 0 && e is Nothing,
        Action::Connected => after == (AppState {
            connection_status: ConnectionStatus::Connected,
            ..before
        }) && e is Nothing,
        Action::Disconnected(_) => after == (AppState {
            connection_status: ConnectionStatus::Disconnected,
            ..before
        }) && e is Nothing,
        Action::Reconnecting => after == (AppState {
            connection_status: ConnectionStatus::Reconnecting,
            ..before
        }) && e is Nothing,
        Action::RequestRestart(id) => after == before && (e matches AppEffect::Send(
            Action::ShowConfirm(ConfirmAction::RestartDevice { id: i, name }),
        ) && i == id && name@ == device_name_spec(store, id)),
        Action::RequestUnadopt(id) => after == before && (e matches AppEffect::Send(
            Action::ShowConfirm(ConfirmAction::UnadoptDevice { id: i, name }),
        ) && i == id && name@ == device_name_spec(store, id)),
        Action::RequestLocate(id) => after == before && match device_mac_spec(store, id) {
            Some(mac) => executes(
                e,
                store,
                |cmd: Command|
                    cmd matches Command::LocateDevice { mac: m, enable } && m@ == mac && enable,
                "Locating "@ + mac,
            ),
            None => e is Nothing,
        },
        Action::RequestBlockClient(id) => after == before && (e matches AppEffect::Send(
            Action::ShowConfirm(ConfirmAction::BlockClient { id: i, name }),
        ) && i == id && name@ == client_name_spec(store, id)),
        Action::RequestUnblockClient(id) => after == before && (e matches AppEffect::Send(
            Action::ShowConfirm(ConfirmAction::UnblockClient { id: i, name }),
        ) && i == id && name@ == client_name_spec(store, id)),
        Action::RequestForgetClient(id) => after == before && (e matches AppEffect::Send(
            Action::ShowConfirm(ConfirmAction::ForgetClient { id: i, name }),
        ) && i == id && name@ == client_name_spec(store, id)),
        Action::RequestKickClient(id) => after == before && match client_mac_spec(store, id) {
            Some(mac) => executes(
                e,
                store,
                |cmd: Command| cmd matches Command::KickClient { mac: m } && m@ == mac,
                "Kicked "@ + client_name_spec(store, id),
            ),
            None => e is Nothing,
        },
        Action::ShowConfirm(c) => after == (AppState { pending_confirm: Some(c), ..before })
            && e is Nothing,
        Action::ConfirmYes => after == (AppState { pending_confirm: None, ..before }) && match before.pending_confirm {
            Some(c) => confirmed(c, store, e),
            None => e is Nothing,
        },
        Action::ConfirmNo => after == (AppState { pending_confirm: None, ..before }) && e is Nothing,
        Action::NetworkSave(id, update) => after == before && executes(
            e,
            store,
            |cmd: Command| cmd matches Command::UpdateNetwork { id: i, update: u } && i == id && u == update,
            "Updated network"@,
        ),
        Action::OpenSettings => if before.active_screen != ScreenId::Settings && before.active_screen
            != ScreenId::Setup {
            after == (AppState {
                previous_screen: Some(before.active_screen),
                active_screen: ScreenId::Settings,
                ..before
            }) && e is Nothing
        } else {
            after == before && e is Nothing
        },
        Action::CloseSettings => after == (AppState {
            previous_screen: None,
            active_screen: match before.previous_screen {
                Some(p) => p,
                None => ScreenId::Dashboard,
            },
            ..before
        }) && e is Nothing,
        Action::DismissNotification => after == before && e is Nothing,
        _ => after == before && e == AppEffect::Forward(action),
    }
}

impl AppState {
    /// The shell at start: on the dashboard with a controller, on the setup
    /// wizard without one; running, disconnected, no overlay.
    pub fn new(has_controller: bool) -> (s: Self)
        ensures
            s.active_screen == (if has_controller {
                ScreenId::Dashboard
            } else {
                ScreenId::Setup
            }),
            s.previous_screen is None,
            s.running,
            s.connection_status == ConnectionStatus::Disconnected,
            !s.help_visible,
            !s.search_active,
            s.search_query@.len() == 0,
            s.terminal_size == (0u16, 0u16),
            s.pending_confirm is None,
    {
        AppState {
            active_screen: if has_controller {
                ScreenId::Dashboard
            } else {
                ScreenId::Setup
            },
            previous_screen: None,
            running: true,
            connection_status: ConnectionStatus::Disconnected,
            help_visible: false,
            search_active: false,
            search_query: String::new(),
            terminal_size: (0, 0),
            pending_confirm: None,
        }
    }

    /// Routes a key press (see `key_routed`).
    pub fn route_key(&mut self, key: KeyPress) -> (r: KeyRoute)
        ensures
            key_routed(*old(self), key, *final(self), r),
    {
        let m = key.modifiers;
        let ctrl_c = m.control_only() && key.code == KeyCode::Char('c');
        if self.active_screen == ScreenId::Setup || self.active_screen == ScreenId::Settings {
            if ctrl_c {
                return KeyRoute::Emit(Action::Quit);
            }
            return KeyRoute::ToScreen(self.active_screen);
        }
        if self.pending_confirm.is_some() {
            return match key.code {
                KeyCode::Char('y') | KeyCode::Char('Y') => KeyRoute::Emit(Action::ConfirmYes),
                KeyCode::Char('n') | KeyCode::Char('N') | KeyCode::Esc => KeyRoute::Emit(
                    Action::ConfirmNo,
                ),
                _ => KeyRoute::Ignore,
            };
        }
        if self.search_active {
            return match key.code {
                KeyCode::Esc => {
                    self.search_query = String::new();
                    KeyRoute::Emit(Action::CloseSearch)
                },
                KeyCode::Enter => KeyRoute::Emit(Action::SearchSubmit),
                KeyCode::Backspace => {
                    let _ = pop_char(&mut self.search_query);
                    KeyRoute::Emit(Action::SearchInput(self.search_query.clone()))
                },
                KeyCode::Char(c) => {
                    push_char(&mut self.search_query, c);
                    KeyRoute::Emit(Action::SearchInput(self.search_query.clone()))
                },
                _ => KeyRoute::Ignore,
            };
        }
        if self.help_visible {
            return match key.code {
                KeyCode::Esc | KeyCode::Char('?') => KeyRoute::Emit(Action::ToggleHelp),
                _ => KeyRoute::Ignore,
            };
        }
        let none = m.none();
        if ctrl_c || (none && key.code == KeyCode::Char('q')) {
            return KeyRoute::Emit(Action::Quit);
        }
        if none {
            match key.code {
                KeyCode::Char('?') => return KeyRoute::Emit(Action::ToggleHelp),
                KeyCode::Char('/') => return KeyRoute::Emit(Action::OpenSearch),
                KeyCode::Char(',') => return KeyRoute::Emit(Action::OpenSettings),
                KeyCode::Char(c) => {
                    let n = c as u32;
                    if 49 <= n && n <= 56 {
                        let k = (n - 48) as u8;
                        match ScreenId::from_number(k) {
                            Some(s) => return KeyRoute::Emit(Action::SwitchScreen(s)),
                            None => {},
                        }
                    }
                },
                KeyCode::Tab => return KeyRoute::Emit(Action::SwitchScreen(self.active_screen.next())),
                KeyCode::Esc => return KeyRoute::Emit(Action::GoBack),
                _ => {},
            }
        }
        if m.shift_only() && key.code == KeyCode::BackTab {
            return KeyRoute::Emit(Action::SwitchScreen(self.active_screen.prev()));
        }
        KeyRoute::ToScreen(self.active_screen)
    }
    /// Processes an action (see `processed`); `store` is the controller's
    /// store, absent without a controller.
    pub fn process_action(&mut self, action: Action, store: Option<&DataStore>) -> (e: AppEffect)
        requires
            store_wf(store),
        ensures
            processed(*old(self), action, store, *final(self), e),
    {
        match action {
            Action::Quit => {
                self.running = false;
                AppEffect::Nothing
            },
            Action::Resize(w, h) => {
                self.terminal_size = (w, h);
                AppEffect::Nothing
            },
            Action::SwitchScreen(t) => {
                if t != self.active_screen {
                    self.previous_screen = Some(self.active_screen);
                    self.active_screen = t;
                    if t == ScreenId::Stats {
                        return AppEffect::FetchStats;
                    }
                }
                AppEffect::Nothing
            },
            Action::GoBack => match self.previous_screen.take() {
                Some(p) => AppEffect::Send(Action::SwitchScreen(p)),
                None => AppEffect::Nothing,
            },
            Action::ToggleHelp => {
                self.help_visible = !self.help_visible;
                AppEffect::Nothing
            },
            Action::OpenSearch => {
                self.search_active = true;
                self.search_query = String::new();
                AppEffect::Nothing
            },
            Action::CloseSearch => {
                self.search_active = false;
                self.search_query = String::new();
                AppEffect::Nothing
            },
            Action::Connected => {
                self.connection_status = ConnectionStatus::Connected;
                AppEffect::Nothing
            },
            Action::Disconnected(_) => {
                self.connection_status = ConnectionStatus::Disconnected;
                AppEffect::Nothing
            },
            Action::Reconnecting => {
                self.connection_status = ConnectionStatus::Reconnecting;
                AppEffect::Nothing
            },
            Action::RequestRestart(id) => {
                let name = resolve_device_name(store, &id);
                AppEffect::Send(Action::ShowConfirm(ConfirmAction::RestartDevice { id, name }))
            },
            Action::RequestUnadopt(id) => {
                let name = resolve_device_name(store, &id);
                AppEffect::Send(Action::ShowConfirm(ConfirmAction::UnadoptDevice { id, name }))
            },
            Action::RequestLocate(id) => match resolve_device_mac(store, &id) {
                Some(mac) => {
                    let msg = concat("Locating ", mac.as_str());
                    execute(store, Command::LocateDevice { mac, enable: true }, msg)
                },
                None => AppEffect::Nothing,
            },
            Action::RequestBlockClient(id) => {
                let name = resolve_client_name(store, &id);
                AppEffect::Send(Action::ShowConfirm(ConfirmAction::BlockClient { id, name }))
            },
            Action::RequestUnblockClient(id) => {
                let name = resolve_client_name(store, &id);
                AppEffect::Send(Action::ShowConfirm(ConfirmAction::UnblockClient { id, name }))
            },
            Action::RequestForgetClient(id) => {
                let name = resolve_client_name(store, &id);
                AppEffect::Send(Action::ShowConfirm(ConfirmAction::ForgetClient { id, name }))
            },
            Action::RequestKickClient(id) => match resolve_client_mac(store, &id) {
                Some(mac) => {
                    let name = resolve_client_name(store, &id);
                    let msg = concat("Kicked ", name.as_str());
                    execute(store, Command::KickClient { mac }, msg)
                },
                None => AppEffect::Nothing,
            },
            Action::ShowConfirm(c) => {
                self.pending_confirm = Some(c);
                AppEffect::Nothing
            },
            Action::ConfirmYes => match self.pending_confirm.take() {
                Some(c) => confirm_effect(c, store),
                None => AppEffect::Nothing,
            },
            Action::ConfirmNo => {
                self.pending_confirm = None;
                AppEffect::Nothing
            },
            Action::NetworkSave(id, update) => execute(
                store,
                Command::UpdateNetwork { id, update },
                owned("Updated network"),
            ),
            Action::OpenSettings => {
                if self.active_screen != ScreenId::Settings && self.active_screen != ScreenId::Setup {
                    self.previous_screen = Some(self.active_screen);
                    self.active_screen = ScreenId::Settings;
                }
                AppEffect::Nothing
            },
            Action::CloseSettings => {
                let target = match self.previous_screen.take() {
                    Some(p) => p,
                    None => ScreenId::Dashboard,
                };
                self.active_screen = target;
                AppEffect::Nothing
            },
            Action::DismissNotification => AppEffect::Nothing,
            other => AppEffect::Forward(other),
        }
    }
}

/// Switching to another screen and then going back returns to the screen
/// left.
pub proof fn lemma_switch_then_back(
    s0: AppState,
    t: ScreenId,
    store: Option<&DataStore>,
    s1: AppState,
    e1: AppEffect,
    s2: AppState,
    e2: AppEffect,
)
    requires
        t != s0.active_screen,
        processed(s0, Action::SwitchScreen(t), store, s1, e1),
        processed(s1, Action::GoBack, store, s2, e2),
    ensures
        e2 matches AppEffect::Send(Action::SwitchScreen(p)) && p == s0.active_screen,
        s2.active_screen == t,
{
}

/// Opening the settings from a screen and closing them comes back to that
/// screen.
pub proof fn lemma_settings_round_trip(
    s0: AppState,
    store: Option<&DataStore>,
    s1: AppState,
    e1: AppEffect,
    s2: AppState,
    e2: AppEffect,
)
    requires
        s0.active_screen != ScreenId::Settings,
        s0.active_screen != ScreenId::Setup,
        processed(s0, Action::OpenSettings, store, s1, e1),
        processed(s1, Action::CloseSettings, store, s2, e2),
    ensures
        s1.active_screen == ScreenId::Settings,
        s2.active_screen == s0.active_screen,
{
}

/// Toggling help twice restores the shell.
pub proof fn lemma_help_toggle_twice(
    s0: AppState,
    store: Option<&DataStore>,
    s1: AppState,
    e1: AppEffect,
    s2: AppState,
    e2: AppEffect,
)
    requires
        processed(s0, Action::ToggleHelp, store, s1, e1),
        processed(s1, Action::ToggleHelp, store, s2, e2),
    ensures
        s2 == s0,
{
}

/// An open confirmation dialog captures every key: no key reaches a
/// screen or changes the shell, and only y/Y, n/N and Esc do anything.
pub proof fn lemma_dialog_captures_keys(before: AppState, key: KeyPress, after: AppState, r: KeyRoute)
    requires
        before.active_screen != ScreenId::Setup,
        before.active_screen != ScreenId::Settings,
        before.pending_confirm is Some,
        key_routed(before, key, after, r),
    ensures
        after == before,
        !(r is ToScreen),
        r matches KeyRoute::Emit(a) ==> (a is ConfirmYes || a is ConfirmNo),
{
}

} // verus!
