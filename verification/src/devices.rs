//! Devices screen logic: table selection and the detail panel's tabs.

use std::sync::Arc;

use vstd::prelude::*;

use crate::action::{Action, DeviceDetailTab};
use crate::keys::{KeyCode, KeyPress};
use crate::model::Device;
use crate::networks::{moved_selection, selected_row};
use crate::table::{clamped_row, move_row, select_row};

verus! {

/// The detail tab to the right (wrapping).
pub open spec fn tab_right(t: DeviceDetailTab) -> DeviceDetailTab {
    match t {
        DeviceDetailTab::Overview => DeviceDetailTab::Performance,
        DeviceDetailTab::Performance => DeviceDetailTab::Radios,
        DeviceDetailTab::Radios => DeviceDetailTab::Clients,
        DeviceDetailTab::Clients => DeviceDetailTab::Ports,
        DeviceDetailTab::Ports => DeviceDetailTab::Overview,
    }
}

/// The detail tab to the left (wrapping).
pub open spec fn tab_left(t: DeviceDetailTab) -> DeviceDetailTab {
    match t {
        DeviceDetailTab::Overview => DeviceDetailTab::Ports,
        DeviceDetailTab::Performance => DeviceDetailTab::Overview,
        DeviceDetailTab::Radios => DeviceDetailTab::Performance,
        DeviceDetailTab::Clients => DeviceDetailTab::Radios,
        DeviceDetailTab::Ports => DeviceDetailTab::Clients,
    }
}

/// Left and right between detail tabs undo each other.
pub proof fn lemma_tab_left_right_inverse(t: DeviceDetailTab)
    ensures
        tab_left(tab_right(t)) == t,
        tab_right(tab_left(t)) == t,
{
}

/// Devices screen state.
pub struct DevicesScreenState {
    pub devices: Vec<Arc<Device>>,
    pub selected: Option<usize>,
    pub detail_open: bool,
    pub detail_tab: DeviceDetailTab,
}

/// The id of the selected device, if the selection is on a row.
pub open spec fn selected_device_id(s: DevicesScreenState) -> Option<crate::entity_id::EntityIdView> {
    if selected_row(s.selected) < s.devices@.len() {
        Some(s.devices@[selected_row(s.selected)].id@)
    } else {
        None
    }
}

/// An action carrying the selected device's id, built by `make`, or none
/// without a selected device.
pub open spec fn action_for_selected(r: Option<Action>, s: DevicesScreenState, restart: bool) -> bool {
    match selected_device_id(s) {
        Some(id) => if restart {
            (r matches Some(Action::RequestRestart(i)) && i@ == id)
        } else {
            (r matches Some(Action::RequestLocate(i)) && i@ == id)
        },
        None => r is None,
    }
}

impl DevicesScreenState {
    /// A fresh screen.
    pub fn new() -> (s: Self)
        ensures
            s.devices@.len() == 0,
            s.selected is None,
            !s.detail_open,
            s.detail_tab == DeviceDetailTab::Overview,
    {
        DevicesScreenState {
            devices: Vec::new(),
            selected: None,
            detail_open: false,
            detail_tab: DeviceDetailTab::default(),
        }
    }

    fn selected_id(&self) -> (r: Option<crate::entity_id::EntityId>)
        ensures
            match r {
                Some(i) => selected_device_id(*self) == Some(i@),
                None => selected_device_id(*self) is None,
            },
    {
        let idx = match self.selected {
            Some(i) => i,
            None => 0,
        };
        if idx < self.devices.len() {
            Some(self.devices[idx].id.duplicate())
        } else {
            None
        }
    }

    /// New data: replace the table; a selection past its end moves to the
    /// last row.
    pub fn set_devices(&mut self, devices: Vec<Arc<Device>>)
        ensures
            final(self).devices@ == devices@,
            final(self).detail_open == old(self).detail_open,
            final(self).detail_tab == old(self).detail_tab,
            final(self).selected == (if devices@.len() > 0 && selected_row(old(self).selected) >= devices@.len() {
                Some((devices@.len() - 1) as usize)
            } else {
                old(self).selected
            }),
    {
        self.devices = devices;
        let idx = match self.selected {
            Some(i) => i,
            None => 0,
        };
        if self.devices.len() > 0 && idx >= self.devices.len() {
            self.selected = Some(select_row(self.devices.len() - 1, self.devices.len()));
        }
    }

    /// Applies an action meant for this screen: new device data, closing
    /// the detail panel, or switching its tab; others change nothing.
    pub fn update(&mut self, action: Action)
        ensures
            match action {
                Action::DevicesUpdated(d) => final(self).devices@ == d@ && final(self).detail_open
                    == old(self).detail_open && final(self).detail_tab == old(self).detail_tab
                    && final(self).selected == (if d@.len() > 0 && selected_row(old(self).selected)
                    >= d@.len() {
                    Some((d@.len() - 1) as usize)
                } else {
                    old(self).selected
                }),
                Action::CloseDetail => final(self).devices == old(self).devices && final(self).selected
                    == old(self).selected && !final(self).detail_open && final(self).detail_tab == old(
                    self,
                ).detail_tab,
                Action::DeviceDetailTab(t) => final(self).devices == old(self).devices
                    && final(self).selected == old(self).selected && final(self).detail_open == old(
                    self,
                ).detail_open && final(self).detail_tab == t,
                _ => *final(self) == *old(self),
            },
    {
        match action {
            Action::DevicesUpdated(d) => self.set_devices(d),
            Action::CloseDetail => {
                self.detail_open = false;
            },
            Action::DeviceDetailTab(t) => {
                self.detail_tab = t;
            },
            _ => {},
        }
    }

    /// Handle a key press: tab switching and commands while the detail
    /// panel is open, table navigation otherwise.
    pub fn handle_key(&mut self, key: KeyPress) -> (r: Option<Action>)
        ensures
            final(self).devices == old(self).devices,
            old(self).detail_open ==> detail_key_outcome(*old(self), key, *final(self), r),
            !old(self).detail_open ==> devices_table_outcome(*old(self), key, *final(self), r),
    {
        let len = self.devices.len();
        if self.detail_open {
            return match key.code {
                KeyCode::Esc => {
                    self.detail_open = false;
                    Some(Action::CloseDetail)
                },
                KeyCode::Char('h') | KeyCode::Left => {
                    self.detail_tab = match self.detail_tab {
                        DeviceDetailTab::Overview => DeviceDetailTab::Ports,
                        DeviceDetailTab::Performance => DeviceDetailTab::Overview,
                        DeviceDetailTab::Radios => DeviceDetailTab::Performance,
                        DeviceDetailTab::Clients => DeviceDetailTab::Radios,
                        DeviceDetailTab::Ports => DeviceDetailTab::Clients,
                    };
                    None
                },
                KeyCode::Char('l') | KeyCode::Right => {
                    self.detail_tab = match self.detail_tab {
                        DeviceDetailTab::Overview => DeviceDetailTab::Performance,
                        DeviceDetailTab::Performance => DeviceDetailTab::Radios,
                        DeviceDetailTab::Radios => DeviceDetailTab::Clients,
                        DeviceDetailTab::Clients => DeviceDetailTab::Ports,
                        DeviceDetailTab::Ports => DeviceDetailTab::Overview,
                    };
                    None
                },
                KeyCode::Char('R') => match self.selected_id() {
                    Some(id) => Some(Action::RequestRestart(id)),
                    None => None,
                },
                KeyCode::Char('L') => match self.selected_id() {
                    Some(id) => Some(Action::RequestLocate(id)),
                    None => None,
                },
                _ => None,
            };
        }
        match key.code {
            KeyCode::Char('j') | KeyCode::Down => {
                if let Some(row) = move_row(self.selected, 1, len) {
                    proof { crate::table::lemma_moved_row_in_table(self.selected, 1, len as int); }
                    self.selected = Some(row);
                }
                None
            },
            KeyCode::Char('k') | KeyCode::Up => {
                if let Some(row) = move_row(self.selected, -1, len) {
                    proof { crate::table::lemma_moved_row_in_table(self.selected, -1, len as int); }
                    self.selected = Some(row);
                }
                None
            },
            KeyCode::Char('g') => {
                self.selected = Some(select_row(0, len));
                Some(Action::ScrollToTop)
            },
            KeyCode::Char('G') => {
                if len > 0 {
                    self.selected = Some(select_row(len - 1, len));
                }
                Some(Action::ScrollToBottom)
            },
            KeyCode::Char('d') if key.modifiers.control => {
                if let Some(row) = move_row(self.selected, 10, len) {
                    proof { crate::table::lemma_moved_row_in_table(self.selected, 10, len as int); }
                    self.selected = Some(row);
                }
                Some(Action::PageDown)
            },
            KeyCode::Char('u') if key.modifiers.control => {
                if let Some(row) = move_row(self.selected, -10, len) {
                    proof { crate::table::lemma_moved_row_in_table(self.selected, -10, len as int); }
                    self.selected = Some(row);
                }
                Some(Action::PageUp)
            },
            KeyCode::Enter => match self.selected_id() {
                Some(id) => {
                    self.detail_open = true;
                    self.detail_tab = DeviceDetailTab::Overview;
                    Some(Action::OpenDeviceDetail(id))
                },
                None => None,
            },
            KeyCode::Char('R') => match self.selected_id() {
                Some(id) => Some(Action::RequestRestart(id)),
                None => None,
            },
            KeyCode::Char('L') => match self.selected_id() {
                Some(id) => Some(Action::RequestLocate(id)),
                None => None,
            },
            _ => None,
        }
    }
}

/// Keys on the open detail panel: Esc closes it, h/l or arrows switch
/// tabs, R and L request a restart or locate of the selected device.
pub open spec fn detail_key_outcome(
    before: DevicesScreenState,
    key: KeyPress,
    after: DevicesScreenState,
    r: Option<Action>,
) -> bool {
    &&& after.selected == before.selected
    &&& match key.code {
        KeyCode::Esc => !after.detail_open && after.detail_tab == before.detail_tab && r == Some(
            Action::CloseDetail,
        ),
        KeyCode::Char('h') | KeyCode::Left => after.detail_open && after.detail_tab == tab_left(
            before.detail_tab,
        ) && r is None,
        KeyCode::Char('l') | KeyCode::Right => after.detail_open && after.detail_tab == tab_right(
            before.detail_tab,
        ) && r is None,
        KeyCode::Char('R') => after.detail_open && after.detail_tab == before.detail_tab
            && action_for_selected(r, before, true),
        KeyCode::Char('L') => after.detail_open && after.detail_tab == before.detail_tab
            && action_for_selected(r, before, false),
        _ => after.detail_open && after.detail_tab == before.detail_tab && r is None,
    }
}

/// Keys on the table: navigation as on every table, Enter opens the detail
/// panel on its first tab for the selected device, R and L as on the panel.
pub open spec fn devices_table_outcome(
    before: DevicesScreenState,
    key: KeyPress,
    after: DevicesScreenState,
    r: Option<Action>,
) -> bool {
    let len = before.devices@.len() as int;
    match key.code {
        KeyCode::Char('j') | KeyCode::Down => after.selected == moved_selection(before.selected, 1, len)
            && !after.detail_open && after.detail_tab == before.detail_tab && r is None,
        KeyCode::Char('k') | KeyCode::Up => after.selected == moved_selection(before.selected, -1, len)
            && !after.detail_open && after.detail_tab == before.detail_tab && r is None,
        KeyCode::Char('g') => after.selected == Some(clamped_row(0, len) as usize) && !after.detail_open
            && after.detail_tab == before.detail_tab && r == Some(Action::ScrollToTop),
        KeyCode::Char('G') => after.selected == (if len > 0 {
            Some((len - 1) as usize)
        } else {
            before.selected
        }) && !after.detail_open && after.detail_tab == before.detail_tab && r == Some(Action::ScrollToBottom),
        KeyCode::Char('d') if key.modifiers.control => after.selected == moved_selection(before.selected, 10, len)
            && !after.detail_open && after.detail_tab == before.detail_tab && r == Some(Action::PageDown),
        KeyCode::Char('u') if key.modifiers.control => after.selected == moved_selection(before.selected, -10, len)
            && !after.detail_open && after.detail_tab == before.detail_tab && r == Some(Action::PageUp),
        KeyCode::Enter => after.selected == before.selected && match selected_device_id(before) {
            Some(id) => after.detail_open && after.detail_tab == DeviceDetailTab::Overview
                && (r matches Some(Action::OpenDeviceDetail(i)) && i@ == id),
            None => !after.detail_open && after.detail_tab == before.detail_tab && r is None,
        },
        KeyCode::Char('R') => after.selected == before.selected && !after.detail_open
            && after.detail_tab == before.detail_tab && action_for_selected(r, before, true),
        KeyCode::Char('L') => after.selected == before.selected && !after.detail_open
            && after.detail_tab == before.detail_tab && action_for_selected(r, before, false),
        _ => after.selected == before.selected && !after.detail_open && after.detail_tab == before.detail_tab
            && r is None,
    }
}

} // verus!
