//! Settings form: edit the controller profile from within the interface.
//! Esc closes the form; Enter validates it and tests the connection, and a
//! successful test applies the profile.

use vstd::arithmetic::div_mod::{lemma_mod_add_multiples_vanish, lemma_mod_self_0, lemma_small_mod};
use vstd::prelude::*;

use crate::keys::{KeyCode, KeyPress};
use crate::profile::{
    auth_mode_at, auth_mode_at_spec, auth_mode_index_spec, build_profile, check_credentials,
    credential_problem, from_config_spec, opt_view, profile_built, url_is_valid, url_parse_ok,
    uses_api_key, uses_password, AuthMode, FormEffect, Profile, AUTH_MODE_COUNT,
};
use crate::text::{drop_last_char, is_blank, owned, pop_char, push_char, trimmed};

verus! {

/// Whether the form is being edited or a connection test is running.
#[derive(Debug, Clone, Copy, PartialEq, Eq, Structural)]
pub enum SettingsState {
    Editing,
    Testing,
}

/// The form's fields, in tab order.
#[derive(Debug, Clone, Copy, PartialEq, Eq, Structural)]
pub enum SettingsField {
    Url,
    AuthMode,
    ApiKey,
    Username,
    Password,
    Site,
    Insecure,
}

/// Whether a field is shown for a mode: the key only for modes that use
/// one, username and password only for modes that use them.
pub open spec fn visible_for_spec(f: SettingsField, mode: AuthMode) -> bool {
    match f {
        SettingsField::ApiKey => uses_api_key(mode),
        SettingsField::Username | SettingsField::Password => uses_password(mode),
        _ => true,
    }
}

/// The fields shown for a mode, in tab order.
pub open spec fn visible_fields_spec(mode: AuthMode) -> Seq<SettingsField> {
    match mode {
        AuthMode::ApiKey => seq![
            SettingsField::Url,
            SettingsField::AuthMode,
            SettingsField::ApiKey,
            SettingsField::Site,
            SettingsField::Insecure,
        ],
        AuthMode::Legacy => seq![
            SettingsField::Url,
            SettingsField::AuthMode,
            SettingsField::Username,
            SettingsField::Password,
            SettingsField::Site,
            SettingsField::Insecure,
        ],
        AuthMode::Hybrid => seq![
            SettingsField::Url,
            SettingsField::AuthMode,
            SettingsField::ApiKey,
            SettingsField::Username,
            SettingsField::Password,
            SettingsField::Site,
            SettingsField::Insecure,
        ],
    }
}

/// Index of the first occurrence of `f` in `s`, or 0 when it is absent.
pub open spec fn position_or_zero(s: Seq<SettingsField>, f: SettingsField) -> int
    decreases s.len(),
{
    if s.len() == 0 {
        0
    } else if s.last() == f && !s.drop_last().contains(f) {
        s.len() - 1
    } else {
        position_or_zero(s.drop_last(), f)
    }
}

/// The field after `f` among those shown for `mode` (wrapping).
pub open spec fn field_after(mode: AuthMode, f: SettingsField) -> SettingsField {
    let s = visible_fields_spec(mode);
    s[(position_or_zero(s, f) + 1) % (s.len() as int)]
}

/// The field before `f` among those shown for `mode` (wrapping).
pub open spec fn field_before(mode: AuthMode, f: SettingsField) -> SettingsField {
    let s = visible_fields_spec(mode);
    s[(position_or_zero(s, f) + s.len() - 1) % (s.len() as int)]
}

impl SettingsField {
    /// Whether the field is shown for a mode.
    pub fn visible_for(self, mode: AuthMode) -> (r: bool)
        ensures
            r == visible_for_spec(self, mode),
    {
        match self {
            SettingsField::Url | SettingsField::AuthMode | SettingsField::Site
            | SettingsField::Insecure => true,
            SettingsField::ApiKey => match mode {
                AuthMode::ApiKey | AuthMode::Hybrid => true,
                AuthMode::Legacy => false,
            },
            SettingsField::Username | SettingsField::Password => match mode {
                AuthMode::Legacy | AuthMode::Hybrid => true,
                AuthMode::ApiKey => false,
            },
        }
    }
}

/// The fields shown for a mode, in tab order.
pub fn visible_fields(mode: AuthMode) -> (v: Vec<SettingsField>)
    ensures
        v@ == visible_fields_spec(mode),
{
    let mut v: Vec<SettingsField> = Vec::new();
    v.push(SettingsField::Url);
    v.push(SettingsField::AuthMode);
    if SettingsField::ApiKey.visible_for(mode) {
        v.push(SettingsField::ApiKey);
    }
    if SettingsField::Username.visible_for(mode) {
        v.push(SettingsField::Username);
        v.push(SettingsField::Password);
    }
    v.push(SettingsField::Site);
    v.push(SettingsField::Insecure);
    assert(v@ =~= visible_fields_spec(mode));
    v
}

proof fn lemma_position_found(s: Seq<SettingsField>, f: SettingsField, i: int)
    requires
        0 <= i < s.len(),
        s[i] == f,
        forall|j: int| 0 <= j < i ==> s[j] != f,
    ensures
        position_or_zero(s, f) == i,
    decreases s.len(),
{
    if i == s.len() - 1 {
        assert(!s.drop_last().contains(f)) by {
            if s.drop_last().contains(f) {
                let j = choose|j: int| 0 <= j < s.drop_last().len() && s.drop_last()[j] == f;
                assert(s[j] == f);
            }
        }
    } else {
        assert(s.drop_last()[i] == f);
        assert(s.drop_last().contains(f));
        lemma_position_found(s.drop_last(), f, i);
    }
}

proof fn lemma_position_absent(s: Seq<SettingsField>, f: SettingsField)
    requires
        forall|j: int| 0 <= j < s.len() ==> s[j] != f,
    ensures
        position_or_zero(s, f) == 0,
    decreases s.len(),
{
    if s.len() > 0 {
        assert(s.last() != f);
        lemma_position_absent(s.drop_last(), f);
    }
}

/// Position of `f` among `fields` (0 when absent).
fn position_of(fields: &Vec<SettingsField>, f: SettingsField) -> (p: usize)
    ensures
        p == position_or_zero(fields@, f),
        fields@.len() > 0 ==> p < fields@.len(),
{
    let mut i: usize = 0;
    while i < fields.len()
        invariant
            i <= fields@.len(),
            forall|j: int| 0 <= j < i ==> fields@[j] != f,
        decreases fields.len() - i,
    {
        if fields[i] == f {
            proof {
                lemma_position_found(fields@, f, i as int);
            }
            return i;
        }
        i = i + 1;
    }
    proof {
        lemma_position_absent(fields@, f);
    }
    0
}

// ── Click geometry ──────────────────────────────────────────────────

/// A rectangle of terminal cells.
#[derive(Debug, Clone, Copy, PartialEq, Eq, Structural)]
pub struct Area {
    pub x: u16,
    pub y: u16,
    pub width: u16,
    pub height: u16,
}

/// `a - b`, or 0 when `b` is larger.
pub open spec fn sat_sub(a: int, b: int) -> int {
    if a > b { a - b } else { 0 }
}

/// Width of the centered panel.
pub open spec fn panel_width(a: Area) -> int {
    let w = sat_sub(a.width as int, 4);
    if w < 62 { w } else { 62 }
}

/// Height of the centered panel.
pub open spec fn panel_height(a: Area) -> int {
    let h = sat_sub(a.height as int, 2);
    if h < 32 { h } else { 32 }
}

/// First row of the field list: inside the border, below a spacer.
pub open spec fn fields_top(a: Area) -> int {
    (a.height - panel_height(a)) / 2 + a.y + 2
}

/// The column dividing the field list's left half from its right half.
pub open spec fn fields_mid(a: Area) -> int {
    (a.width - panel_width(a)) / 2 + a.x + 2 + sat_sub(panel_width(a), 4) / 2
}

/// Rows a field takes: toggles one, inputs four (label and boxed input).
pub open spec fn field_rows(f: SettingsField) -> int {
    if f == SettingsField::Insecure { 1 } else { 4 }
}

/// The field drawn on `row` when `fields` are laid out from `top` down.
pub open spec fn field_at_row(fields: Seq<SettingsField>, top: int, row: int) -> Option<SettingsField>
    decreases fields.len(),
{
    if fields.len() == 0 {
        None
    } else if top <= row < top + field_rows(fields[0]) {
        Some(fields[0])
    } else {
        field_at_row(fields.drop_first(), top + field_rows(fields[0]), row)
    }
}

/// Mathematical value of the settings form.
pub struct SettingsView {
    pub state: SettingsState,
    pub active_field: SettingsField,
    pub url: Seq<char>,
    pub auth_mode: AuthMode,
    pub auth_mode_index: nat,
    pub api_key: Seq<char>,
    pub username: Seq<char>,
    pub password: Seq<char>,
    pub site: Seq<char>,
    pub insecure: bool,
    pub show_password: bool,
    pub profile_name: Seq<char>,
    pub test_error: Option<Seq<char>>,
}

/// The form's invariant: the selector is on a mode, the mode is the
/// selected one, and the focused field is shown for it.
pub open spec fn settings_wf(v: SettingsView) -> bool {
    &&& v.auth_mode_index < 3
    &&& v.auth_mode == auth_mode_at_spec(v.auth_mode_index)
    &&& visible_for_spec(v.active_field, v.auth_mode)
}

/// The first problem with the form's values, if any (`url_ok`: whether the
/// trimmed URL parses).
pub open spec fn settings_problem(v: SettingsView, url_ok: bool) -> Option<Seq<char>> {
    if trimmed(v.url).len() == 0 {
        Some("URL cannot be empty"@)
    } else if !url_ok {
        Some("Invalid URL format"@)
    } else if credential_problem(v.auth_mode, v.api_key, v.username, v.password) is Some {
        credential_problem(v.auth_mode, v.api_key, v.username, v.password)
    } else if trimmed(v.site).len() == 0 {
        Some("Site name cannot be empty"@)
    } else {
        None
    }
}

/// The profile the form builds.
pub open spec fn settings_profile(p: Profile, v: SettingsView) -> bool {
    profile_built(p, v.url, v.site, v.auth_mode, v.api_key, v.username, v.password, v.insecure)
}

/// The form with the mode selector moved one step back (`forward` false)
/// or forward, wrapping; the focus moves to the selector if its field is
/// hidden for the new mode.
pub open spec fn cycled_mode(v: SettingsView, forward: bool) -> SettingsView {
    let i: nat = if forward {
        if v.auth_mode_index < 2 { v.auth_mode_index + 1 } else { 0 }
    } else {
        if v.auth_mode_index > 0 { (v.auth_mode_index - 1) as nat } else { 2 }
    };
    let mode = auth_mode_at_spec(i);
    SettingsView {
        auth_mode_index: i,
        auth_mode: mode,
        active_field: if visible_for_spec(v.active_field, mode) {
            v.active_field
        } else {
            SettingsField::AuthMode
        },
        ..v
    }
}

/// The form after a character typed into the focused text field.
pub open spec fn settings_typed(v: SettingsView, c: char) -> SettingsView {
    match v.active_field {
        SettingsField::Url => SettingsView { url: v.url.push(c), ..v },
        SettingsField::ApiKey => SettingsView { api_key: v.api_key.push(c), ..v },
        SettingsField::Username => SettingsView { username: v.username.push(c), ..v },
        SettingsField::Password => SettingsView { password: v.password.push(c), ..v },
        SettingsField::Site => SettingsView { site: v.site.push(c), ..v },
        _ => v,
    }
}

/// The form after Backspace in the focused text field.
pub open spec fn settings_erased(v: SettingsView) -> SettingsView {
    match v.active_field {
        SettingsField::Url => SettingsView { url: drop_last_char(v.url), ..v },
        SettingsField::ApiKey => SettingsView { api_key: drop_last_char(v.api_key), ..v },
        SettingsField::Username => SettingsView { username: drop_last_char(v.username), ..v },
        SettingsField::Password => SettingsView { password: drop_last_char(v.password), ..v },
        SettingsField::Site => SettingsView { site: drop_last_char(v.site), ..v },
        _ => v,
    }
}

/// What a form transition asks of the application.
#[derive(Debug, Clone, Copy, PartialEq, Eq, Structural)]
pub enum SettingsEffect {
    Nothing,
    Close,
    Test,
}

/// Enter: a refused form keeps the problem as its message, an accepted
/// one starts the connection test.
pub open spec fn submitted(v: SettingsView, url_ok: bool) -> (SettingsView, SettingsEffect) {
    match settings_problem(v, url_ok) {
        Some(msg) => (SettingsView { test_error: Some(msg), ..v }, SettingsEffect::Nothing),
        None => (
            SettingsView { state: SettingsState::Testing, test_error: None, ..v },
            SettingsEffect::Test,
        ),
    }
}

/// The form after a key press, and what the application is asked to do.
/// During a test only Esc counts (it returns to editing); otherwise the
/// test message is cleared and the key acts on the focused field: the
/// selector cycles modes with the arrows or h/j/k/l, Space flips the
/// certificate toggle, text fields take characters and Backspace, Ctrl+u
/// shows or hides the password; Tab and Shift+Tab move the focus, Enter
/// submits, Esc closes.
pub open spec fn settings_key(v: SettingsView, key: KeyPress, url_ok: bool) -> (
    SettingsView,
    SettingsEffect,
) {
    if v.state == SettingsState::Testing {
        if key.code == KeyCode::Esc {
            (
                SettingsView { state: SettingsState::Editing, test_error: None, ..v },
                SettingsEffect::Nothing,
            )
        } else {
            (v, SettingsEffect::Nothing)
        }
    } else {
        let v = SettingsView { test_error: None, ..v };
        match key.code {
            KeyCode::Tab => (
                SettingsView { active_field: field_after(v.auth_mode, v.active_field), ..v },
                SettingsEffect::Nothing,
            ),
            KeyCode::BackTab => (
                SettingsView { active_field: field_before(v.auth_mode, v.active_field), ..v },
                SettingsEffect::Nothing,
            ),
            KeyCode::Enter => submitted(v, url_ok),
            KeyCode::Esc => (v, SettingsEffect::Close),
            _ => match v.active_field {
                SettingsField::AuthMode => match key.code {
                    KeyCode::Up | KeyCode::Left | KeyCode::Char('k') | KeyCode::Char('h') => (
                        cycled_mode(v, false),
                        SettingsEffect::Nothing,
                    ),
                    KeyCode::Down | KeyCode::Right | KeyCode::Char('j') | KeyCode::Char('l') => (
                        cycled_mode(v, true),
                        SettingsEffect::Nothing,
                    ),
                    _ => (v, SettingsEffect::Nothing),
                },
                SettingsField::Insecure => match key.code {
                    KeyCode::Char(' ') => (
                        SettingsView { insecure: !v.insecure, ..v },
                        SettingsEffect::Nothing,
                    ),
                    _ => (v, SettingsEffect::Nothing),
                },
                _ => match key.code {
                    KeyCode::Backspace => (settings_erased(v), SettingsEffect::Nothing),
                    KeyCode::Char(c) => if key.modifiers.control && c == 'u' {
                        (
                            SettingsView { show_password: !v.show_password, ..v },
                            SettingsEffect::Nothing,
                        )
                    } else {
                        (settings_typed(v, c), SettingsEffect::Nothing)
                    },
                    _ => (v, SettingsEffect::Nothing),
                },
            },
        }
    }
}

/// The form after a left click on `row`, `column` of a screen whose last
/// drawn area was `area`: the clicked field gets the focus; a click on the
/// toggle flips it, a click on the selector cycles the mode back (left
/// half) or forward (right half). Ignored during a test, before the first
/// draw, and off the fields.
pub open spec fn settings_click(v: SettingsView, row: u16, column: u16, area: Area) -> SettingsView {
    if v.state != SettingsState::Editing || area.width == 0 {
        v
    } else {
        match field_at_row(visible_fields_spec(v.auth_mode), fields_top(area), row as int) {
            None => v,
            Some(f) => {
                let v = SettingsView { active_field: f, ..v };
                if f == SettingsField::Insecure {
                    SettingsView { insecure: !v.insecure, ..v }
                } else if f == SettingsField::AuthMode {
                    cycled_mode(v, (column as int) >= fields_mid(area))
                } else {
                    v
                }
            },
        }
    }
}

/// The effect handed to the application matches the transition's; a test
/// or an application carries the form's profile.
pub open spec fn settings_effect_fits(e: FormEffect, k: SettingsEffect, v: SettingsView) -> bool {
    match k {
        SettingsEffect::Nothing => e is Nothing,
        SettingsEffect::Close => e is Close,
        SettingsEffect::Test => e matches FormEffect::TestConnection(p) && settings_profile(p, v),
    }
}

/// The settings form's state.
#[derive(Debug)]
pub struct SettingsScreenState {
    state: SettingsState,
    active_field: SettingsField,
    url_input: String,
    auth_mode: AuthMode,
    auth_mode_index: usize,
    api_key_input: String,
    username_input: String,
    password_input: String,
    site_input: String,
    insecure: bool,
    show_password: bool,
    profile_name: String,
    test_error: Option<String>,
}

impl View for SettingsScreenState {
    type V = SettingsView;

    closed spec fn view(&self) -> SettingsView {
        SettingsView {
            state: self.state,
            active_field: self.active_field,
            url: self.url_input@,
            auth_mode: self.auth_mode,
            auth_mode_index: self.auth_mode_index as nat,
            api_key: self.api_key_input@,
            username: self.username_input@,
            password: self.password_input@,
            site: self.site_input@,
            insecure: self.insecure,
            show_password: self.show_password,
            profile_name: self.profile_name@,
            test_error: opt_view(self.test_error),
        }
    }
}

impl SettingsScreenState {
    /// The form's invariant (see `settings_wf`).
    pub open spec fn wf(&self) -> bool {
        settings_wf(self@)
    }

    /// A form with the defaults: a typical controller URL, API key mode,
    /// the default site and profile, self-signed certificates accepted.
    pub fn new() -> (s: Self)
        ensures
            s.wf(),
            s@.state == SettingsState::Editing,
            s@.active_field == SettingsField::Url,
            s@.url == "https://192.168.1.1"@,
            s@.auth_mode == AuthMode::ApiKey,
            s@.auth_mode_index == 0,
            s@.api_key.len() == 0,
            s@.username.len() == 0,
            s@.password.len() == 0,
            s@.site == "default"@,
            s@.insecure,
            !s@.show_password,
            s@.profile_name == "default"@,
            s@.test_error is None,
    {
        SettingsScreenState {
            state: SettingsState::Editing,
            active_field: SettingsField::Url,
            url_input: owned("https://192.168.1.1"),
            auth_mode: AuthMode::ApiKey,
            auth_mode_index: 0,
            api_key_input: String::new(),
            username_input: String::new(),
            password_input: String::new(),
            site_input: owned("default"),
            insecure: true,
            show_password: false,
            profile_name: owned("default"),
            test_error: None,
        }
    }

    /// The defaults overwritten by a saved profile: its name, URL, site,
    /// mode and certificate setting (absent counts as checked), and the
    /// credentials it holds.
    pub fn from_profile(profile_name: &str, profile: &Profile) -> (s: Self)
        ensures
            s.wf(),
            s@.state == SettingsState::Editing,
            s@.active_field == SettingsField::Url,
            s@.profile_name == profile_name@,
            s@.url == profile.controller@,
            s@.site == profile.site@,
            s@.insecure == match profile.insecure {
                Some(b) => b,
                None => false,
            },
            s@.auth_mode == from_config_spec(profile.auth_mode@),
            s@.auth_mode_index == auth_mode_index_spec(from_config_spec(profile.auth_mode@)),
            s@.api_key == match opt_view(profile.api_key) {
                Some(k) => k,
                None => Seq::<char>::empty(),
            },
            s@.username == match opt_view(profile.username) {
                Some(u) => u,
                None => Seq::<char>::empty(),
            },
            s@.password == match opt_view(profile.password) {
                Some(p) => p,
                None => Seq::<char>::empty(),
            },
            !s@.show_password,
            s@.test_error is None,
    {
        let mut s = Self::new();
        s.profile_name = owned(profile_name);
        s.url_input = profile.controller.clone();
        s.site_input = profile.site.clone();
        s.insecure = match profile.insecure {
            Some(b) => b,
            None => false,
        };
        let mode = AuthMode::from_config(profile.auth_mode.as_str());
        s.auth_mode = mode;
        s.auth_mode_index = mode.index();
        if let Some(key) = &profile.api_key {
            s.api_key_input = key.clone();
        }
        if let Some(user) = &profile.username {
            s.username_input = user.clone();
        }
        if let Some(pass) = &profile.password {
            s.password_input = pass.clone();
        }
        s
    }

    /// The form's state (editing or testing).
    pub fn state(&self) -> (s: SettingsState)
        ensures
            s == self@.state,
    {
        self.state
    }

    /// The focused field.
    pub fn active_field(&self) -> (f: SettingsField)
        ensures
            f == self@.active_field,
    {
        self.active_field
    }

    /// The name of the profile being edited.
    pub fn profile_name(&self) -> (n: String)
        ensures
            n@ == self@.profile_name,
    {
        self.profile_name.clone()
    }

    /// The fields shown for the current mode, in tab order.
    pub fn visible_fields(&self) -> (v: Vec<SettingsField>)
        ensures
            v@ == visible_fields_spec(self@.auth_mode),
    {
        visible_fields(self.auth_mode)
    }

    /// Tab: focus the next field shown (wrapping).
    pub fn focus_next(&mut self)
        ensures
            final(self)@ == (SettingsView {
                active_field: field_after(old(self)@.auth_mode, old(self)@.active_field),
                ..old(self)@
            }),
    {
        let fields = visible_fields(self.auth_mode);
        let pos = position_of(&fields, self.active_field);
        self.active_field = fields[(pos + 1) % fields.len()];
    }

    /// Shift+Tab: focus the previous field shown (wrapping).
    pub fn focus_prev(&mut self)
        ensures
            final(self)@ == (SettingsView {
                active_field: field_before(old(self)@.auth_mode, old(self)@.active_field),
                ..old(self)@
            }),
    {
        let fields = visible_fields(self.auth_mode);
        let pos = position_of(&fields, self.active_field);
        self.active_field = fields[(pos + fields.len() - 1) % fields.len()];
    }

    /// Move the focus to the selector if its field is hidden for the mode.
    pub fn clamp_focus(&mut self)
        ensures
            final(self)@ == (SettingsView {
                active_field: if visible_for_spec(old(self)@.active_field, old(self)@.auth_mode) {
                    old(self)@.active_field
                } else {
                    SettingsField::AuthMode
                },
                ..old(self)@
            }),
    {
        if !self.active_field.visible_for(self.auth_mode) {
            self.active_field = SettingsField::AuthMode;
        }
    }

    fn cycle_mode(&mut self, forward: bool)
        requires
            old(self).wf(),
        ensures
            final(self).wf(),
            final(self)@ == cycled_mode(old(self)@, forward),
    {
        if forward {
            if self.auth_mode_index < AUTH_MODE_COUNT - 1 {
                self.auth_mode_index = self.auth_mode_index + 1;
            } else {
                self.auth_mode_index = 0;
            }
        } else {
            if self.auth_mode_index > 0 {
                self.auth_mode_index = self.auth_mode_index - 1;
            } else {
                self.auth_mode_index = AUTH_MODE_COUNT - 1;
            }
        }
        self.auth_mode = auth_mode_at(self.auth_mode_index);
        self.clamp_focus();
    }

    /// Checks the form, given whether the trimmed URL parses: `Ok` exactly
    /// when `settings_problem` finds none, otherwise its message.
    pub fn validate_with(&self, url_ok: bool) -> (r: Result<(), String>)
        ensures
            match r {
                Ok(()) => settings_problem(self@, url_ok) is None,
                Err(msg) => settings_problem(self@, url_ok) == Some(msg@),
            },
    {
        if is_blank(self.url_input.as_str()) {
            return Err(owned("URL cannot be empty"));
        }
        if !url_ok {
            return Err(owned("Invalid URL format"));
        }
        check_credentials(
            self.auth_mode,
            self.api_key_input.as_str(),
            self.username_input.as_str(),
            self.password_input.as_str(),
        )?;
        if is_blank(self.site_input.as_str()) {
            return Err(owned("Site name cannot be empty"));
        }
        Ok(())
    }

    /// Checks the form: `validate_with` on whether the trimmed URL parses.
    pub fn validate(&self) -> (r: Result<(), String>)
        ensures
            match r {
                Ok(()) => settings_problem(self@, url_parse_ok(trimmed(self@.url))) is None,
                Err(msg) => settings_problem(self@, url_parse_ok(trimmed(self@.url))) == Some(msg@),
            },
    {
        let ok = url_is_valid(self.url_input.as_str());
        self.validate_with(ok)
    }

    /// The profile for the form's values.
    pub fn build_profile(&self) -> (p: Profile)
        ensures
            settings_profile(p, self@),
    {
        build_profile(
            self.url_input.as_str(),
            self.site_input.as_str(),
            self.auth_mode,
            self.api_key_input.as_str(),
            self.username_input.as_str(),
            self.password_input.as_str(),
            self.insecure,
        )
    }

    fn submit(&mut self, url_ok: bool) -> (e: FormEffect)
        ensures
            final(self)@ == submitted(old(self)@, url_ok).0,
            settings_effect_fits(e, submitted(old(self)@, url_ok).1, final(self)@),
    {
        match self.validate_with(url_ok) {
            Err(msg) => {
                self.test_error = Some(msg);
                FormEffect::Nothing
            },
            Ok(()) => {
                self.state = SettingsState::Testing;
                self.test_error = None;
                FormEffect::TestConnection(self.build_profile())
            },
        }
    }

    fn type_char(&mut self, c: char)
        ensures
            final(self)@ == settings_typed(old(self)@, c),
    {
        match self.active_field {
            SettingsField::Url => push_char(&mut self.url_input, c),
            SettingsField::ApiKey => push_char(&mut self.api_key_input, c),
            SettingsField::Username => push_char(&mut self.username_input, c),
            SettingsField::Password => push_char(&mut self.password_input, c),
            SettingsField::Site => push_char(&mut self.site_input, c),
            _ => {},
        }
    }

    fn erase_char(&mut self)
        ensures
            final(self)@ == settings_erased(old(self)@),
    {
        match self.active_field {
            SettingsField::Url => {
                let _ = pop_char(&mut self.url_input);
            },
            SettingsField::ApiKey => {
                let _ = pop_char(&mut self.api_key_input);
            },
            SettingsField::Username => {
                let _ = pop_char(&mut self.username_input);
            },
            SettingsField::Password => {
                let _ = pop_char(&mut self.password_input);
            },
            SettingsField::Site => {
                let _ = pop_char(&mut self.site_input);
            },
            _ => {},
        }
    }

    /// A key press, given whether the trimmed URL parses (see
    /// `settings_key`).
    pub fn handle_key_with(&mut self, key: KeyPress, url_ok: bool) -> (e: FormEffect)
        requires
            old(self).wf(),
        ensures
            final(self).wf(),
            final(self)@ == settings_key(old(self)@, key, url_ok).0,
            settings_effect_fits(e, settings_key(old(self)@, key, url_ok).1, final(self)@),
    {
        proof {
            lemma_focus_moves_stay_visible(self@.auth_mode, self@.active_field);
        }
        if self.state == SettingsState::Testing {
            if key.code == KeyCode::Esc {
                self.state = SettingsState::Editing;
                self.test_error = None;
            }
            return FormEffect::Nothing;
        }
        self.test_error = None;
        match key.code {
            KeyCode::Tab => {
                self.focus_next();
                return FormEffect::Nothing;
            },
            KeyCode::BackTab => {
                self.focus_prev();
                return FormEffect::Nothing;
            },
            KeyCode::Enter => {
                return self.submit(url_ok);
            },
            KeyCode::Esc => {
                return FormEffect::Close;
            },
            _ => {},
        }
        match self.active_field {
            SettingsField::AuthMode => match key.code {
                KeyCode::Up | KeyCode::Left | KeyCode::Char('k') | KeyCode::Char('h') => {
                    self.cycle_mode(false);
                },
                KeyCode::Down | KeyCode::Right | KeyCode::Char('j') | KeyCode::Char('l') => {
                    self.cycle_mode(true);
                },
                _ => {},
            },
            SettingsField::Insecure => {
                if key.code == KeyCode::Char(' ') {
                    self.insecure = !self.insecure;
                }
            },
            _ => match key.code {
                KeyCode::Backspace => self.erase_char(),
                KeyCode::Char(c) => {
                    if key.modifiers.control && c == 'u' {
                        self.show_password = !self.show_password;
                    } else {
                        self.type_char(c);
                    }
                },
                _ => {},
            },
        }
        FormEffect::Nothing
    }

    /// A key press: `handle_key_with` on whether the trimmed URL parses.
    pub fn handle_key(&mut self, key: KeyPress) -> (e: FormEffect)
        requires
            old(self).wf(),
        ensures
            final(self).wf(),
            final(self)@ == settings_key(old(self)@, key, url_parse_ok(trimmed(old(self)@.url))).0,
            settings_effect_fits(
                e,
                settings_key(old(self)@, key, url_parse_ok(trimmed(old(self)@.url))).1,
                final(self)@,
            ),
    {
        let ok = url_is_valid(self.url_input.as_str());
        self.handle_key_with(key, ok)
    }

    /// A left click at `row`, `column`, with `area` the last area the form
    /// was drawn in (see `settings_click`).
    pub fn handle_click(&mut self, row: u16, column: u16, area: Area)
        requires
            old(self).wf(),
        ensures
            final(self).wf(),
            final(self)@ == settings_click(old(self)@, row, column, area),
    {
        if self.state != SettingsState::Editing || area.width == 0 {
            return;
        }
        let w4: u32 = if area.width > 4 { area.width as u32 - 4 } else { 0 };
        let panel_w: u32 = if w4 < 62 { w4 } else { 62 };
        let h2: u32 = if area.height > 2 { area.height as u32 - 2 } else { 0 };
        let panel_h: u32 = if h2 < 32 { h2 } else { 32 };
        let px: u32 = (area.width as u32 - panel_w) / 2 + area.x as u32;
        let py: u32 = (area.height as u32 - panel_h) / 2 + area.y as u32;
        let content_y: u32 = py + 2;
        let fields_x: u32 = px + 2;
        let fields_w: u32 = if panel_w > 4 { panel_w - 4 } else { 0 };
        let fields = visible_fields(self.auth_mode);
        let row32: u32 = row as u32;
        let mut y: u32 = content_y;
        let mut i: usize = 0;
        let ghost all = fields@;
        proof {
            lemma_visible_fields_facts(self@.auth_mode);
            assert(all.subrange(0, all.len() as int) =~= all);
        }
        while i < fields.len()
            invariant
                self@ == old(self)@,
                settings_wf(self@),
                self@.state == SettingsState::Editing,
                area.width != 0,
                fields_x as int + (fields_w / 2) as int == fields_mid(area),
                fields_x <= 200000,
                fields_w <= 62,
                forall|k: int| 0 <= k < all.len() ==> visible_for_spec(#[trigger] all[k], self@.auth_mode),
                fields@ == all,
                all == visible_fields_spec(self@.auth_mode),
                i <= all.len(),
                y as int == fields_top(area) + rows_before(all, i as int),
                field_at_row(all, fields_top(area), row as int) == field_at_row(
                    all.subrange(i as int, all.len() as int),
                    y as int,
                    row as int,
                ),
                rows_before(all, i as int) <= 4 * i,
                y <= 200000,
                row32 == row,
            decreases all.len() - i,
        {
            let f = fields[i];
            let height: u32 = if f == SettingsField::Insecure { 1 } else { 4 };
            proof {
                let rest = all.subrange(i as int, all.len() as int);
                assert(rest[0] == f);
                assert(rest.drop_first() =~= all.subrange(i + 1, all.len() as int));
                assert(rows_before(all, i + 1) == rows_before(all, i as int) + field_rows(f));
            }
            if row32 >= y && row32 < y + height {
                self.active_field = f;
                if f == SettingsField::Insecure {
                    self.insecure = !self.insecure;
                }
                if f == SettingsField::AuthMode {
                    let mid_x = fields_x + fields_w / 2;
                    self.cycle_mode((column as u32) >= mid_x);
                }
                return;
            }
            y = y + height;
            i = i + 1;
        }
        proof {
            assert(all.subrange(all.len() as int, all.len() as int).len() == 0);
        }
    }

    /// The connection test's result: success applies the form's profile,
    /// failure returns to editing with the message.
    pub fn apply_test_result(&mut self, result: Result<(), String>) -> (e: FormEffect)
        ensures
            match result {
                Ok(()) => final(self)@ == old(self)@ && (e matches FormEffect::Apply(p)
                    && settings_profile(p, old(self)@)),
                Err(msg) => final(self)@ == (SettingsView {
                    state: SettingsState::Editing,
                    test_error: Some(msg@),
                    ..old(self)@
                }) && e is Nothing,
            },
    {
        match result {
            Ok(()) => FormEffect::Apply(self.build_profile()),
            Err(msg) => {
                self.state = SettingsState::Editing;
                self.test_error = Some(msg);
                FormEffect::Nothing
            },
        }
    }
}

/// Rows taken by the first `i` fields of `fields`.
pub open spec fn rows_before(fields: Seq<SettingsField>, i: int) -> int
    decreases i,
{
    if i <= 0 {
        0
    } else {
        rows_before(fields, i - 1) + field_rows(fields[i - 1])
    }
}

proof fn lemma_visible_fields_facts(mode: AuthMode)
    ensures
        ({
            let s = visible_fields_spec(mode);
            &&& s.len() >= 5
            &&& s[1] == SettingsField::AuthMode
            &&& forall|i: int| 0 <= i < s.len() ==> visible_for_spec(#[trigger] s[i], mode)
            &&& forall|i: int, j: int| 0 <= i < s.len() && 0 <= j < s.len() && s[i] == s[j] ==> i == j
            &&& forall|f: SettingsField| visible_for_spec(f, mode) ==> s.contains(f)
        }),
{
    let s = visible_fields_spec(mode);
    assert forall|f: SettingsField| visible_for_spec(f, mode) implies s.contains(f) by {
        let i: int = match mode {
            AuthMode::ApiKey => match f {
                SettingsField::Url => 0,
                SettingsField::AuthMode => 1,
                SettingsField::ApiKey => 2,
                SettingsField::Site => 3,
                _ => 4,
            },
            AuthMode::Legacy => match f {
                SettingsField::Url => 0,
                SettingsField::AuthMode => 1,
                SettingsField::Username => 2,
                SettingsField::Password => 3,
                SettingsField::Site => 4,
                _ => 5,
            },
            AuthMode::Hybrid => match f {
                SettingsField::Url => 0,
                SettingsField::AuthMode => 1,
                SettingsField::ApiKey => 2,
                SettingsField::Username => 3,
                SettingsField::Password => 4,
                SettingsField::Site => 5,
                _ => 6,
            },
        };
        assert(s[i] == f);
    }
}

proof fn lemma_position_of_member(s: Seq<SettingsField>, k: int)
    requires
        0 <= k < s.len(),
        forall|i: int, j: int| 0 <= i < s.len() && 0 <= j < s.len() && s[i] == s[j] ==> i == j,
    ensures
        position_or_zero(s, s[k]) == k,
{
    lemma_position_found(s, s[k], k);
}

/// Tab and Shift+Tab only ever focus a field shown for the mode, and for
/// a shown field each undoes the other.
pub proof fn lemma_focus_moves_stay_visible(mode: AuthMode, f: SettingsField)
    ensures
        visible_for_spec(field_after(mode, f), mode),
        visible_for_spec(field_before(mode, f), mode),
        visible_for_spec(f, mode) ==> field_before(mode, field_after(mode, f)) == f,
        visible_for_spec(f, mode) ==> field_after(mode, field_before(mode, f)) == f,
{
    let s = visible_fields_spec(mode);
    let n = s.len() as int;
    lemma_visible_fields_facts(mode);
    let p = position_or_zero(s, f);
    if s.contains(f) {
        let i = choose|i: int| 0 <= i < s.len() && s[i] == f;
        lemma_position_found(s, f, i);
    } else {
        lemma_position_absent(s, f);
    }
    assert(0 <= p < n);
    let q = (p + 1) % n;
    let r = (p + n - 1) % n;
    lemma_wrap_steps(p, n);
    lemma_position_of_member(s, q);
    lemma_position_of_member(s, r);
}

proof fn lemma_wrap_steps(p: int, n: int)
    requires
        0 <= p < n,
    ensures
        0 <= (p + 1) % n < n,
        0 <= (p + n - 1) % n < n,
        ((p + 1) % n + n - 1) % n == p,
        ((p + n - 1) % n + 1) % n == p,
{
    lemma_small_mod(p as nat, n as nat);
    if p + 1 < n {
        lemma_small_mod((p + 1) as nat, n as nat);
        lemma_mod_add_multiples_vanish(p, n);
    } else {
        lemma_mod_self_0(n);
        lemma_small_mod((n - 1) as nat, n as nat);
    }
    if p >= 1 {
        lemma_mod_add_multiples_vanish(p - 1, n);
        lemma_small_mod((p - 1) as nat, n as nat);
    } else {
        lemma_small_mod((n - 1) as nat, n as nat);
        lemma_mod_self_0(n);
    }
}

} // verus!
