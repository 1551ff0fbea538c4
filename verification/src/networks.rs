//! Networks screen logic: the network table's selection and the inline
//! edit form.

use std::sync::Arc;

use vstd::prelude::*;

use crate::action::Action;
use crate::fmt::bool_label;
use crate::keys::{KeyCode, KeyPress};
use crate::model::Network;
use crate::requests::UpdateNetworkRequest;
use crate::table::{clamped_row, move_row, moved_row, select_row};
use crate::text::{char_is_digit, decimal, drop_last_char, is_digit, parse_u16, parse_u16_spec, pop_char, push_char, u64_to_string};

verus! {

/// Number of fields in the network edit form.
pub const FIELD_COUNT: usize = 8;

/// Mathematical value of the edit form.
pub struct NetworkEditView {
    pub name: Seq<char>,
    pub vlan_id: Seq<char>,
    pub dhcp_enabled: bool,
    pub isolation_enabled: bool,
    pub internet_access_enabled: bool,
    pub mdns_forwarding_enabled: bool,
    pub ipv6_enabled: bool,
    pub enabled: bool,
    pub field_idx: nat,
}

/// Editable fields of a network, initialized from the selected network.
pub struct NetworkEditState {
    name: String,
    vlan_id: String,
    dhcp_enabled: bool,
    isolation_enabled: bool,
    internet_access_enabled: bool,
    mdns_forwarding_enabled: bool,
    ipv6_enabled: bool,
    enabled: bool,
    field_idx: usize,
}

impl View for NetworkEditState {
    type V = NetworkEditView;

    closed spec fn view(&self) -> NetworkEditView {
        NetworkEditView {
            name: self.name@,
            vlan_id: self.vlan_id@,
            dhcp_enabled: self.dhcp_enabled,
            isolation_enabled: self.isolation_enabled,
            internet_access_enabled: self.internet_access_enabled,
            mdns_forwarding_enabled: self.mdns_forwarding_enabled,
            ipv6_enabled: self.ipv6_enabled,
            enabled: self.enabled,
            field_idx: self.field_idx as nat,
        }
    }
}

/// Fields 2 and up are on/off toggles; 0 (name) and 1 (VLAN) are text.
pub open spec fn is_bool_field_spec(idx: nat) -> bool {
    idx >= 2
}

/// The form after Space on the focused field: the focused toggle flips.
pub open spec fn toggled(e: NetworkEditView) -> NetworkEditView {
    if e.field_idx == 2 {
        NetworkEditView { enabled: !e.enabled, ..e }
    } else if e.field_idx == 3 {
        NetworkEditView { dhcp_enabled: !e.dhcp_enabled, ..e }
    } else if e.field_idx == 4 {
        NetworkEditView { isolation_enabled: !e.isolation_enabled, ..e }
    } else if e.field_idx == 5 {
        NetworkEditView { internet_access_enabled: !e.internet_access_enabled, ..e }
    } else if e.field_idx == 6 {
        NetworkEditView { mdns_forwarding_enabled: !e.mdns_forwarding_enabled, ..e }
    } else if e.field_idx == 7 {
        NetworkEditView { ipv6_enabled: !e.ipv6_enabled, ..e }
    } else {
        e
    }
}

/// The form after typing `ch`: appended to the name, or to the VLAN id if
/// it is a digit; ignored elsewhere.
pub open spec fn typed(e: NetworkEditView, ch: char) -> NetworkEditView {
    if e.field_idx == 0 {
        NetworkEditView { name: e.name.push(ch), ..e }
    } else if e.field_idx == 1 && is_digit(ch) {
        NetworkEditView { vlan_id: e.vlan_id.push(ch), ..e }
    } else {
        e
    }
}

/// The form after Backspace on the focused text field.
pub open spec fn erased(e: NetworkEditView) -> NetworkEditView {
    if e.field_idx == 0 {
        NetworkEditView { name: drop_last_char(e.name), ..e }
    } else if e.field_idx == 1 {
        NetworkEditView { vlan_id: drop_last_char(e.vlan_id), ..e }
    } else {
        e
    }
}

/// The form with focus moved to the next field (wrapping).
pub open spec fn focus_next_field(e: NetworkEditView) -> NetworkEditView {
    NetworkEditView { field_idx: ((e.field_idx + 1) % 8) as nat, ..e }
}

/// The form with focus moved to the previous field (wrapping).
pub open spec fn focus_prev_field(e: NetworkEditView) -> NetworkEditView {
    NetworkEditView { field_idx: if e.field_idx == 0 { 7 } else { (e.field_idx - 1) as nat }, ..e }
}

/// The text the form shows for a field (empty past the last field).
pub open spec fn field_value_spec(e: NetworkEditView, idx: nat) -> Seq<char> {
    if idx == 0 {
        e.name
    } else if idx == 1 {
        e.vlan_id
    } else if idx == 2 {
        bool_text(e.enabled)
    } else if idx == 3 {
        bool_text(e.dhcp_enabled)
    } else if idx == 4 {
        bool_text(e.isolation_enabled)
    } else if idx == 5 {
        bool_text(e.internet_access_enabled)
    } else if idx == 6 {
        bool_text(e.mdns_forwarding_enabled)
    } else if idx == 7 {
        bool_text(e.ipv6_enabled)
    } else {
        Seq::<char>::empty()
    }
}

/// Space flips exactly the toggle that the focused field shows: on a
/// toggle field the shown value of that field changes and the shown value
/// of every other field stays; on a text field nothing changes. Focus stays,
/// and a second Space undoes the first.
pub proof fn lemma_toggle_flips_shown_field(e: NetworkEditView, i: nat)
    ensures
        is_bool_field_spec(e.field_idx) && e.field_idx < 8 ==> (field_value_spec(toggled(e), i)
            != field_value_spec(e, i) <==> i == e.field_idx),
        !(is_bool_field_spec(e.field_idx) && e.field_idx < 8) ==> toggled(e) == e,
        toggled(e).field_idx == e.field_idx,
        toggled(toggled(e)) == e,
{
    reveal_strlit("Enabled");
    reveal_strlit("Disabled");
    assert("Enabled"@.len() != "Disabled"@.len());
}

/// Text shown for a toggle.
pub open spec fn bool_text(v: bool) -> Seq<char> {
    if v { "Enabled"@ } else { "Disabled"@ }
}

/// The request a form builds: every field set, the VLAN id parsed (left
/// out when its text is not a 16-bit number), no subnet change.
pub open spec fn request_matches(r: UpdateNetworkRequest, e: NetworkEditView) -> bool {
    &&& r.name matches Some(n) && n@ == e.name
    &&& r.vlan_id == parse_u16_spec(e.vlan_id)
    &&& r.enabled == Some(e.enabled)
    &&& r.dhcp_enabled == Some(e.dhcp_enabled)
    &&& r.isolation_enabled == Some(e.isolation_enabled)
    &&& r.internet_access_enabled == Some(e.internet_access_enabled)
    &&& r.mdns_forwarding_enabled == Some(e.mdns_forwarding_enabled)
    &&& r.ipv6_enabled == Some(e.ipv6_enabled)
    &&& r.subnet is None
}

impl NetworkEditState {
    /// The focus stays on one of the form's fields.
    pub open spec fn wf(&self) -> bool {
        self@.field_idx < 8
    }

    /// The form for a network, focused on the name.
    pub fn from_network(net: &Network) -> (e: Self)
        ensures
            e.wf(),
            e@.name == net.name@,
            e@.vlan_id == match net.vlan_id {
                Some(v) => decimal(v as nat),
                None => Seq::<char>::empty(),
            },
            e@.dhcp_enabled == match net.dhcp {
                Some(d) => d.enabled,
                None => false,
            },
            e@.isolation_enabled == net.isolation_enabled,
            e@.internet_access_enabled == net.internet_access_enabled,
            e@.mdns_forwarding_enabled == net.mdns_forwarding_enabled,
            e@.ipv6_enabled == net.ipv6_enabled,
            e@.enabled == net.enabled,
            e@.field_idx == 0,
    {
        NetworkEditState {
            name: net.name.clone(),
            vlan_id: match net.vlan_id {
                Some(v) => u64_to_string(v as u64),
                None => String::new(),
            },
            dhcp_enabled: match &net.dhcp {
                Some(d) => d.enabled,
                None => false,
            },
            isolation_enabled: net.isolation_enabled,
            internet_access_enabled: net.internet_access_enabled,
            mdns_forwarding_enabled: net.mdns_forwarding_enabled,
            ipv6_enabled: net.ipv6_enabled,
            enabled: net.enabled,
            field_idx: 0,
        }
    }

    /// The focused field.
    pub fn field_idx(&self) -> (i: usize)
        ensures
            i == self@.field_idx,
    {
        self.field_idx
    }

    /// Label of a field (empty past the last field).
    pub fn field_label(idx: usize) -> (l: &'static str)
        ensures
            l@ == (if idx == 0 {
                "Name"@
            } else if idx == 1 {
                "VLAN ID"@
            } else if idx == 2 {
                "Enabled"@
            } else if idx == 3 {
                "DHCP"@
            } else if idx == 4 {
                "Isolation"@
            } else if idx == 5 {
                "Internet"@
            } else if idx == 6 {
                "mDNS Fwd"@
            } else if idx == 7 {
                "IPv6"@
            } else {
                ""@
            }),
    {
        match idx {
            0 => "Name",
            1 => "VLAN ID",
            2 => "Enabled",
            3 => "DHCP",
            4 => "Isolation",
            5 => "Internet",
            6 => "mDNS Fwd",
            7 => "IPv6",
            _ => "",
        }
    }

    /// Display value of a field (empty past the last field).
    pub fn field_value(&self, idx: usize) -> (v: String)
        ensures
            v@ == field_value_spec(self@, idx as nat),
    {
        match idx {
            0 => self.name.clone(),
            1 => self.vlan_id.clone(),
            2 => bool_label(self.enabled),
            3 => bool_label(self.dhcp_enabled),
            4 => bool_label(self.isolation_enabled),
            5 => bool_label(self.internet_access_enabled),
            6 => bool_label(self.mdns_forwarding_enabled),
            7 => bool_label(self.ipv6_enabled),
            _ => String::new(),
        }
    }

    /// Whether a field is an on/off toggle.
    pub fn is_bool_field(idx: usize) -> (r: bool)
        ensures
            r == is_bool_field_spec(idx as nat),
    {
        idx >= 2
    }

    /// Flip the focused toggle.
    pub fn toggle_bool(&mut self)
        ensures
            final(self)@ == toggled(old(self)@),
    {
        match self.field_idx {
            2 => self.enabled = !self.enabled,
            3 => self.dhcp_enabled = !self.dhcp_enabled,
            4 => self.isolation_enabled = !self.isolation_enabled,
            5 => self.internet_access_enabled = !self.internet_access_enabled,
            6 => self.mdns_forwarding_enabled = !self.mdns_forwarding_enabled,
            7 => self.ipv6_enabled = !self.ipv6_enabled,
            _ => {},
        }
    }

    /// Type a character into the focused text field.
    pub fn handle_text_input(&mut self, ch: char)
        ensures
            final(self)@ == typed(old(self)@, ch),
    {
        if self.field_idx == 0 {
            push_char(&mut self.name, ch);
        } else if self.field_idx == 1 && char_is_digit(ch) {
            push_char(&mut self.vlan_id, ch);
        }
    }

    /// Erase the last character of the focused text field.
    pub fn handle_backspace(&mut self)
        ensures
            final(self)@ == erased(old(self)@),
    {
        if self.field_idx == 0 {
            let _ = pop_char(&mut self.name);
        } else if self.field_idx == 1 {
            let _ = pop_char(&mut self.vlan_id);
        }
    }

    /// Move focus to the next field (wrapping).
    pub fn next_field(&mut self)
        requires
            old(self).wf(),
        ensures
            final(self).wf(),
            final(self)@ == focus_next_field(old(self)@),
    {
        self.field_idx = (self.field_idx + 1) % FIELD_COUNT;
    }

    /// Move focus to the previous field (wrapping).
    pub fn prev_field(&mut self)
        requires
            old(self).wf(),
        ensures
            final(self).wf(),
            final(self)@ == focus_prev_field(old(self)@),
    {
        self.field_idx = if self.field_idx == 0 { FIELD_COUNT - 1 } else { self.field_idx - 1 };
    }

    /// The update request for the form's values.
    pub fn build_request(&self) -> (r: UpdateNetworkRequest)
        ensures
            request_matches(r, self@),
    {
        UpdateNetworkRequest {
            name: Some(self.name.clone()),
            vlan_id: parse_u16(self.vlan_id.as_str()),
            enabled: Some(self.enabled),
            dhcp_enabled: Some(self.dhcp_enabled),
            isolation_enabled: Some(self.isolation_enabled),
            internet_access_enabled: Some(self.internet_access_enabled),
            mdns_forwarding_enabled: Some(self.mdns_forwarding_enabled),
            ipv6_enabled: Some(self.ipv6_enabled),
            subnet: None,
        }
    }
}

/// Toggling the same field twice restores the form.
pub proof fn lemma_toggle_twice(e: NetworkEditView)
    ensures
        toggled(toggled(e)) == e,
{
}

/// A character that the focused field accepted is erased again by one
/// Backspace.
pub proof fn lemma_backspace_undoes_typing(e: NetworkEditView, ch: char)
    requires
        e.field_idx == 0 || (e.field_idx == 1 && is_digit(ch)),
    ensures
        erased(typed(e, ch)) == e,
{
    assert(e.name.push(ch).drop_last() =~= e.name);
    assert(e.vlan_id.push(ch).drop_last() =~= e.vlan_id);
}

/// Moving focus forward and back (or back and forward) restores it, and
/// eight moves forward come back to the start.
pub proof fn lemma_field_focus_cycle(e: NetworkEditView)
    requires
        e.field_idx < 8,
    ensures
        focus_prev_field(focus_next_field(e)) == e,
        focus_next_field(focus_prev_field(e)) == e,
{
}

/// A VLAN id text made of at most four digits always parses: the form's
/// request carries that number.
pub proof fn lemma_short_vlan_parses(e: NetworkEditView)
    requires
        0 < e.vlan_id.len() <= 4,
        forall|i: int| 0 <= i < e.vlan_id.len() ==> is_digit(#[trigger] e.vlan_id[i]),
    ensures
        parse_u16_spec(e.vlan_id) is Some,
{
    lemma_digits_value_bound(e.vlan_id);
    assert(e.vlan_id.len() == 0 || e.vlan_id[0] != '+');
}

proof fn lemma_digits_value_bound(s: Seq<char>)
    requires
        forall|i: int| 0 <= i < s.len() ==> is_digit(#[trigger] s[i]),
        s.len() <= 4,
    ensures
        crate::text::digits_value(s) < 10000,
        s.len() <= 3 ==> crate::text::digits_value(s) < 1000,
        s.len() <= 2 ==> crate::text::digits_value(s) < 100,
        s.len() <= 1 ==> crate::text::digits_value(s) < 10,
    decreases s.len(),
{
    if s.len() > 0 {
        let t = s.drop_last();
        assert forall|i: int| 0 <= i < t.len() implies is_digit(#[trigger] t[i]) by {
            assert(t[i] == s[i]);
        }
        lemma_digits_value_bound(t);
        assert(is_digit(s[s.len() - 1]));
    }
}

// ── The networks screen ─────────────────────────────────────────────

/// Networks screen state: the table, its selection, the detail panel and
/// the edit form.
pub struct NetworksScreenState {
    pub networks: Vec<Arc<Network>>,
    pub selected: Option<usize>,
    pub detail_open: bool,
    pub edit: Option<NetworkEditState>,
}

/// The selected row (no selection counts as row 0).
pub open spec fn selected_row(sel: Option<usize>) -> int {
    match sel {
        Some(i) => i as int,
        None => 0,
    }
}

/// The selection after a move by `delta` rows in a table of `len` rows.
pub open spec fn moved_selection(sel: Option<usize>, delta: int, len: int) -> Option<usize> {
    if len == 0 {
        sel
    } else {
        Some(moved_row(sel, delta, len) as usize)
    }
}

impl NetworksScreenState {
    /// Any edit form keeps its focus on one of its fields.
    pub open spec fn wf(&self) -> bool {
        (self.edit matches Some(e) ==> e.wf())
    }

    /// A fresh screen: no networks, nothing selected or open.
    pub fn new() -> (s: Self)
        ensures
            s.wf(),
            s.networks@.len() == 0,
            s.selected is None,
            !s.detail_open,
            s.edit is None,
    {
        NetworksScreenState { networks: Vec::new(), selected: None, detail_open: false, edit: None }
    }

    fn select(&mut self, idx: usize)
        ensures
            final(self).selected == Some(clamped_row(idx as int, old(self).networks@.len() as int) as usize),
            final(self).networks == old(self).networks,
            final(self).detail_open == old(self).detail_open,
            final(self).edit == old(self).edit,
    {
        self.selected = Some(select_row(idx, self.networks.len()));
    }

    fn move_selection(&mut self, delta: isize)
        ensures
            final(self).selected == moved_selection(old(self).selected, delta as int, old(self).networks@.len() as int),
            final(self).networks == old(self).networks,
            final(self).detail_open == old(self).detail_open,
            final(self).edit == old(self).edit,
    {
        if let Some(r) = move_row(self.selected, delta, self.networks.len()) {
            proof {
                crate::table::lemma_moved_row_in_table(self.selected, delta as int, self.networks@.len() as int);
            }
            self.selected = Some(r);
        }
    }

    /// New data: replace the table; a selection past its end moves to the
    /// last row.
    pub fn set_networks(&mut self, networks: Vec<Arc<Network>>)
        requires
            old(self).wf(),
        ensures
            final(self).wf(),
            final(self).networks@ == networks@,
            final(self).detail_open == old(self).detail_open,
            final(self).edit == old(self).edit,
            final(self).selected == (if networks@.len() > 0 && selected_row(old(self).selected) >= networks@.len() {
                Some((networks@.len() - 1) as usize)
            } else {
                old(self).selected
            }),
    {
        self.networks = networks;
        let idx = match self.selected {
            Some(i) => i,
            None => 0,
        };
        if self.networks.len() > 0 && idx >= self.networks.len() {
            self.select(self.networks.len() - 1);
        }
    }

    /// Applies an action meant for this screen: new network data replaces
    /// the table; others change nothing.
    pub fn update(&mut self, action: Action)
        requires
            old(self).wf(),
        ensures
            final(self).wf(),
            match action {
                Action::NetworksUpdated(n) => final(self).networks@ == n@ && final(self).detail_open
                    == old(self).detail_open && final(self).edit == old(self).edit
                    && final(self).selected == (if n@.len() > 0 && selected_row(old(self).selected)
                    >= n@.len() {
                    Some((n@.len() - 1) as usize)
                } else {
                    old(self).selected
                }),
                _ => *final(self) == *old(self),
            },
    {
        match action {
            Action::NetworksUpdated(n) => self.set_networks(n),
            _ => {},
        }
    }

    /// Handle a key press: edit-form keys while the form is open, table
    /// navigation otherwise.
    pub fn handle_key(&mut self, key: KeyPress) -> (r: Option<Action>)
        requires
            old(self).wf(),
        ensures
            final(self).wf(),
            final(self).networks == old(self).networks,
            old(self).edit matches Some(e) ==> edit_key_outcome(*old(self), e, key, *final(self), r),
            old(self).edit is None ==> table_key_outcome(*old(self), key, *final(self), r),
    {
        if self.edit.is_some() {
            match key.code {
                KeyCode::Esc => {
                    self.edit = None;
                    return None;
                },
                KeyCode::Enter => {
                    let edit = self.edit.take().unwrap();
                    let req = edit.build_request();
                    let idx = match self.selected {
                        Some(i) => i,
                        None => 0,
                    };
                    if idx < self.networks.len() {
                        let id = self.networks[idx].id.duplicate();
                        return Some(Action::NetworkSave(id, req));
                    }
                    return None;
                },
                _ => {},
            }
            let mut edit = self.edit.take().unwrap();
            match key.code {
                KeyCode::Tab | KeyCode::Down => edit.next_field(),
                KeyCode::BackTab | KeyCode::Up => edit.prev_field(),
                KeyCode::Char(ch) => {
                    if NetworkEditState::is_bool_field(edit.field_idx) {
                        if ch == ' ' {
                            edit.toggle_bool();
                        }
                    } else {
                        edit.handle_text_input(ch);
                    }
                },
                KeyCode::Backspace => {
                    if !NetworkEditState::is_bool_field(edit.field_idx) {
                        edit.handle_backspace();
                    }
                },
                _ => {},
            }
            self.edit = Some(edit);
            return None;
        }
        let len = self.networks.len();
        match key.code {
            KeyCode::Char('j') | KeyCode::Down => {
                self.move_selection(1);
                None
            },
            KeyCode::Char('k') | KeyCode::Up => {
                self.move_selection(-1);
                None
            },
            KeyCode::Char('g') => {
                self.select(0);
                Some(Action::ScrollToTop)
            },
            KeyCode::Char('G') => {
                if len > 0 {
                    self.select(len - 1);
                }
                Some(Action::ScrollToBottom)
            },
            KeyCode::Char('d') if key.modifiers.control => {
                self.move_selection(10);
                Some(Action::PageDown)
            },
            KeyCode::Char('u') if key.modifiers.control => {
                self.move_selection(-10);
                Some(Action::PageUp)
            },
            KeyCode::Enter => {
                self.detail_open = !self.detail_open;
                None
            },
            KeyCode::Esc if self.detail_open => {
                self.detail_open = false;
                None
            },
            KeyCode::Char('e') => {
                let idx = match self.selected {
                    Some(i) => i,
                    None => 0,
                };
                if idx < len {
                    let net = &self.networks[idx];
                    self.edit = Some(NetworkEditState::from_network(net));
                    self.detail_open = true;
                }
                None
            },
            _ => None,
        }
    }
}

/// The form after a key other than Esc and Enter.
pub open spec fn edited(e: NetworkEditView, code: KeyCode) -> NetworkEditView {
    match code {
        KeyCode::Tab | KeyCode::Down => focus_next_field(e),
        KeyCode::BackTab | KeyCode::Up => focus_prev_field(e),
        KeyCode::Char(ch) => if is_bool_field_spec(e.field_idx) {
            if ch == ' ' { toggled(e) } else { e }
        } else {
            typed(e, ch)
        },
        KeyCode::Backspace => if !is_bool_field_spec(e.field_idx) { erased(e) } else { e },
        _ => e,
    }
}

/// What a key does while the edit form is open: Esc closes the form,
/// Enter closes it and saves its request for the selected network (if the
/// selection is on a row), any other key edits the form.
pub open spec fn edit_key_outcome(
    before: NetworksScreenState,
    e: NetworkEditState,
    key: KeyPress,
    after: NetworksScreenState,
    r: Option<Action>,
) -> bool {
    &&& after.selected == before.selected
    &&& after.detail_open == before.detail_open
    &&& match key.code {
        KeyCode::Esc => after.edit is None && r is None,
        KeyCode::Enter => {
            &&& after.edit is None
            &&& if selected_row(before.selected) < before.networks@.len() {
                (r matches Some(Action::NetworkSave(id, req)) && id@ == before.networks@[selected_row(
                    before.selected,
                )].id@ && request_matches(req, e@))
            } else {
                r is None
            }
        },
        _ => r is None && (after.edit matches Some(e2) && e2@ == edited(e@, key.code)),
    }
}

/// What a key does on the table: j/k or arrows move by one row, Ctrl+d and
/// Ctrl+u by ten, g and G jump to the ends, Enter toggles the detail panel,
/// Esc closes it, e opens the edit form for the selected network.
pub open spec fn table_key_outcome(
    before: NetworksScreenState,
    key: KeyPress,
    after: NetworksScreenState,
    r: Option<Action>,
) -> bool {
    let len = before.networks@.len() as int;
    let row = selected_row(before.selected);
    match key.code {
        KeyCode::Char('j') | KeyCode::Down => after.selected == moved_selection(before.selected, 1, len)
            && after.detail_open == before.detail_open && after.edit is None && r is None,
        KeyCode::Char('k') | KeyCode::Up => after.selected == moved_selection(before.selected, -1, len)
            && after.detail_open == before.detail_open && after.edit is None && r is None,
        KeyCode::Char('g') => after.selected == Some(clamped_row(0, len) as usize) && after.detail_open
            == before.detail_open && after.edit is None && r == Some(Action::ScrollToTop),
        KeyCode::Char('G') => after.selected == (if len > 0 {
            Some((len - 1) as usize)
        } else {
            before.selected
        }) && after.detail_open == before.detail_open && after.edit is None && r == Some(
            Action::ScrollToBottom,
        ),
        KeyCode::Char('d') if key.modifiers.control => after.selected == moved_selection(
            before.selected,
            10,
            len,
        ) && after.detail_open == before.detail_open && after.edit is None && r == Some(Action::PageDown),
        KeyCode::Char('u') if key.modifiers.control => after.selected == moved_selection(
            before.selected,
            -10,
            len,
        ) && after.detail_open == before.detail_open && after.edit is None && r == Some(Action::PageUp),
        KeyCode::Enter => after.selected == before.selected && after.detail_open == !before.detail_open
            && after.edit is None && r is None,
        KeyCode::Esc if before.detail_open => after.selected == before.selected && !after.detail_open
            && after.edit is None && r is None,
        KeyCode::Char('e') => after.selected == before.selected && r is None && if row < len {
            &&& after.detail_open
            &&& (after.edit matches Some(f) && f@ == NetworkEditState::from_network_spec(*before.networks@[row]))
        } else {
            after.detail_open == before.detail_open && after.edit is None
        },
        _ => after.selected == before.selected && after.detail_open == before.detail_open
            && after.edit is None && r is None,
    }
}

impl NetworkEditState {
    /// The form `from_network` builds for a network.
    pub open spec fn from_network_spec(net: Network) -> NetworkEditView {
        NetworkEditView {
            name: net.name@,
            vlan_id: match net.vlan_id {
                Some(v) => decimal(v as nat),
                None => Seq::<char>::empty(),
            },
            dhcp_enabled: match net.dhcp {
                Some(d) => d.enabled,
                None => false,
            },
            isolation_enabled: net.isolation_enabled,
            internet_access_enabled: net.internet_access_enabled,
            mdns_forwarding_enabled: net.mdns_forwarding_enabled,
            ipv6_enabled: net.ipv6_enabled,
            enabled: net.enabled,
            field_idx: 0,
        }
    }
}

} // verus!
