//! First-run setup wizard: Welcome → URL → authentication mode →
//! credentials → site → connection test → done.

use vstd::prelude::*;

use crate::keys::{KeyCode, KeyPress};
use crate::profile::{
    auth_mode_at, auth_mode_at_spec, build_profile, check_credentials, credential_problem,
    profile_built, url_is_valid, url_parse_ok, uses_api_key, uses_password, AuthMode, FormEffect,
    Profile, AUTH_MODE_COUNT,
};
use crate::text::{drop_last_char, is_blank, owned, pop_char, push_char, trimmed};

verus! {

/// The wizard's steps, in order.
#[derive(Debug, Clone, Copy, PartialEq, Eq, Structural)]
pub enum WizardStep {
    Welcome,
    Url,
    AuthMode,
    Credentials,
    Site,
    Testing,
    Done,
}

/// Position of a step in the wizard (Welcome is 0, Done is 6).
pub open spec fn step_index(s: WizardStep) -> nat {
    match s {
        WizardStep::Welcome => 0,
        WizardStep::Url => 1,
        WizardStep::AuthMode => 2,
        WizardStep::Credentials => 3,
        WizardStep::Site => 4,
        WizardStep::Testing => 5,
        WizardStep::Done => 6,
    }
}

impl WizardStep {
    /// Position of the step, for the progress indicator.
    pub fn index(self) -> (i: usize)
        ensures
            i == step_index(self),
    {
        match self {
            WizardStep::Welcome => 0,
            WizardStep::Url => 1,
            WizardStep::AuthMode => 2,
            WizardStep::Credentials => 3,
            WizardStep::Site => 4,
            WizardStep::Testing => 5,
            WizardStep::Done => 6,
        }
    }
}

/// The credential input that has focus.
#[derive(Debug, Clone, Copy, PartialEq, Eq, Structural)]
pub enum CredentialField {
    ApiKey,
    Username,
    Password,
}

/// Whether a mode asks for a credential field.
pub open spec fn field_used(mode: AuthMode, f: CredentialField) -> bool {
    match f {
        CredentialField::ApiKey => uses_api_key(mode),
        _ => uses_password(mode),
    }
}

/// The field Tab moves to: API key mode stays on the key, legacy mode
/// alternates username and password, hybrid cycles key, username,
/// password.
pub open spec fn next_cred_field_spec(mode: AuthMode, f: CredentialField) -> CredentialField {
    match mode {
        AuthMode::ApiKey => CredentialField::ApiKey,
        AuthMode::Legacy => match f {
            CredentialField::Username => CredentialField::Password,
            _ => CredentialField::Username,
        },
        AuthMode::Hybrid => match f {
            CredentialField::ApiKey => CredentialField::Username,
            CredentialField::Username => CredentialField::Password,
            CredentialField::Password => CredentialField::ApiKey,
        },
    }
}

/// The field that has focus first for a mode.
pub open spec fn first_cred_field(mode: AuthMode) -> CredentialField {
    if uses_api_key(mode) {
        CredentialField::ApiKey
    } else {
        CredentialField::Username
    }
}

/// Mathematical value of the wizard's state.
pub struct OnboardingView {
    pub step: WizardStep,
    pub url: Seq<char>,
    pub auth_mode: AuthMode,
    pub auth_mode_index: nat,
    pub api_key: Seq<char>,
    pub username: Seq<char>,
    pub password: Seq<char>,
    pub site: Seq<char>,
    pub cred_field: CredentialField,
    pub show_password: bool,
    pub testing: bool,
    pub test_error: Option<Seq<char>>,
    pub error: Option<Seq<char>>,
}

/// What a wizard transition asks of the application.
#[derive(Debug, Clone, Copy, PartialEq, Eq, Structural)]
pub enum WizardEffect {
    Nothing,
    /// Test the connection with the wizard's profile.
    Test,
    /// Finish: hand the wizard's profile to the application.
    Complete,
}

/// The wizard's state: its step and its inputs.
#[derive(Debug)]
pub struct OnboardingState {
    step: WizardStep,
    url_input: String,
    auth_mode: AuthMode,
    auth_mode_index: usize,
    api_key_input: String,
    username_input: String,
    password_input: String,
    site_input: String,
    cred_field: CredentialField,
    show_password: bool,
    testing: bool,
    test_error: Option<String>,
    error: Option<String>,
}

impl View for OnboardingState {
    type V = OnboardingView;

    closed spec fn view(&self) -> OnboardingView {
        OnboardingView {
            step: self.step,
            url: self.url_input@,
            auth_mode: self.auth_mode,
            auth_mode_index: self.auth_mode_index as nat,
            api_key: self.api_key_input@,
            username: self.username_input@,
            password: self.password_input@,
            site: self.site_input@,
            cred_field: self.cred_field,
            show_password: self.show_password,
            testing: self.testing,
            test_error: crate::profile::opt_view(self.test_error),
            error: crate::profile::opt_view(self.error),
        }
    }
}

/// The mode selector stays on one of the modes.
pub open spec fn onboarding_wf(v: OnboardingView) -> bool {
    v.auth_mode_index < 3
}

/// The wizard after Enter on its step (`url_ok`: whether the trimmed URL
/// parses). A step whose input is wrong stays put with an error message;
/// Testing waits for the test's result; Done leaves the state unchanged
/// (the application takes over).
pub open spec fn advanced(v: OnboardingView, url_ok: bool) -> OnboardingView {
    let v = OnboardingView { error: None, ..v };
    match v.step {
        WizardStep::Welcome => OnboardingView { step: WizardStep::Url, ..v },
        WizardStep::Url => if trimmed(v.url).len() == 0 {
            OnboardingView { error: Some("URL cannot be empty"@), ..v }
        } else if !url_ok {
            OnboardingView { error: Some("Invalid URL format"@), ..v }
        } else {
            OnboardingView { step: WizardStep::AuthMode, ..v }
        },
        WizardStep::AuthMode => {
            let mode = auth_mode_at_spec(v.auth_mode_index);
            OnboardingView {
                auth_mode: mode,
                cred_field: first_cred_field(mode),
                step: WizardStep::Credentials,
                ..v
            }
        },
        WizardStep::Credentials => match credential_problem(
            v.auth_mode,
            v.api_key,
            v.username,
            v.password,
        ) {
            Some(msg) => OnboardingView { error: Some(msg), ..v },
            None => OnboardingView { step: WizardStep::Site, ..v },
        },
        WizardStep::Site => if trimmed(v.site).len() == 0 {
            OnboardingView { error: Some("Site name cannot be empty"@), ..v }
        } else {
            OnboardingView { step: WizardStep::Testing, testing: true, test_error: None, ..v }
        },
        WizardStep::Testing => v,
        WizardStep::Done => v,
    }
}

/// Whether Enter on the wizard starts a connection test.
pub open spec fn advance_tests(v: OnboardingView) -> bool {
    v.step == WizardStep::Site && trimmed(v.site).len() != 0
}

/// The wizard after Esc: one step back (from the test back to the site
/// step, which also stops the test); errors are cleared.
pub open spec fn went_back(v: OnboardingView) -> OnboardingView {
    let v = OnboardingView { error: None, test_error: None, ..v };
    match v.step {
        WizardStep::Welcome => v,
        WizardStep::Url => OnboardingView { step: WizardStep::Welcome, ..v },
        WizardStep::AuthMode => OnboardingView { step: WizardStep::Url, ..v },
        WizardStep::Credentials => OnboardingView { step: WizardStep::AuthMode, ..v },
        WizardStep::Site => OnboardingView { step: WizardStep::Credentials, ..v },
        WizardStep::Testing => OnboardingView { testing: false, step: WizardStep::Site, ..v },
        WizardStep::Done => OnboardingView { step: WizardStep::Site, ..v },
    }
}

/// The wizard after a character typed into the step's text input (the
/// URL, the site, or the focused credential).
pub open spec fn typed_char(v: OnboardingView, c: char) -> OnboardingView {
    match v.step {
        WizardStep::Url => OnboardingView { url: v.url.push(c), ..v },
        WizardStep::Site => OnboardingView { site: v.site.push(c), ..v },
        WizardStep::Credentials => match v.cred_field {
            CredentialField::ApiKey => OnboardingView { api_key: v.api_key.push(c), ..v },
            CredentialField::Username => OnboardingView { username: v.username.push(c), ..v },
            CredentialField::Password => OnboardingView { password: v.password.push(c), ..v },
        },
        _ => v,
    }
}

/// The wizard after Backspace in the step's text input.
pub open spec fn erased_char(v: OnboardingView) -> OnboardingView {
    match v.step {
        WizardStep::Url => OnboardingView { url: drop_last_char(v.url), ..v },
        WizardStep::Site => OnboardingView { site: drop_last_char(v.site), ..v },
        WizardStep::Credentials => match v.cred_field {
            CredentialField::ApiKey => OnboardingView { api_key: drop_last_char(v.api_key), ..v },
            CredentialField::Username => OnboardingView {
                username: drop_last_char(v.username),
                ..v
            },
            CredentialField::Password => OnboardingView {
                password: drop_last_char(v.password),
                ..v
            },
        },
        _ => v,
    }
}

/// The wizard after a key press, and what the application is asked to do
/// (`url_ok`: whether the trimmed URL parses). Any key but Enter clears
/// the step's error first.
pub open spec fn wizard_key(v: OnboardingView, key: KeyPress, url_ok: bool) -> (
    OnboardingView,
    WizardEffect,
) {
    let v = if key.code != KeyCode::Enter {
        OnboardingView { error: None, ..v }
    } else {
        v
    };
    let enter = (advanced(v, url_ok), if advance_tests(v) {
        WizardEffect::Test
    } else if v.step == WizardStep::Done {
        WizardEffect::Complete
    } else {
        WizardEffect::Nothing
    });
    match v.step {
        WizardStep::Welcome => if key.code == KeyCode::Enter {
            enter
        } else {
            (v, WizardEffect::Nothing)
        },
        WizardStep::Url | WizardStep::Site => match key.code {
            KeyCode::Enter => enter,
            KeyCode::Esc => (went_back(v), WizardEffect::Nothing),
            KeyCode::Backspace => (erased_char(v), WizardEffect::Nothing),
            KeyCode::Char(c) => (typed_char(v, c), WizardEffect::Nothing),
            _ => (v, WizardEffect::Nothing),
        },
        WizardStep::AuthMode => match key.code {
            KeyCode::Up | KeyCode::Char('k') => (
                OnboardingView {
                    auth_mode_index: if v.auth_mode_index > 0 {
                        (v.auth_mode_index - 1) as nat
                    } else {
                        v.auth_mode_index
                    },
                    ..v
                },
                WizardEffect::Nothing,
            ),
            KeyCode::Down | KeyCode::Char('j') => (
                OnboardingView {
                    auth_mode_index: if v.auth_mode_index < 2 {
                        v.auth_mode_index + 1
                    } else {
                        v.auth_mode_index
                    },
                    ..v
                },
                WizardEffect::Nothing,
            ),
            KeyCode::Enter => enter,
            KeyCode::Esc => (went_back(v), WizardEffect::Nothing),
            _ => (v, WizardEffect::Nothing),
        },
        WizardStep::Credentials => match key.code {
            KeyCode::Tab => (
                OnboardingView { cred_field: next_cred_field_spec(v.auth_mode, v.cred_field), ..v },
                WizardEffect::Nothing,
            ),
            KeyCode::Enter => enter,
            KeyCode::Esc => (went_back(v), WizardEffect::Nothing),
            KeyCode::Backspace => (erased_char(v), WizardEffect::Nothing),
            KeyCode::Char(c) => if key.modifiers.control && c == 'u' {
                (OnboardingView { show_password: !v.show_password, ..v }, WizardEffect::Nothing)
            } else {
                (typed_char(v, c), WizardEffect::Nothing)
            },
            _ => (v, WizardEffect::Nothing),
        },
        WizardStep::Testing => if key.code == KeyCode::Esc {
            (went_back(v), WizardEffect::Nothing)
        } else {
            (v, WizardEffect::Nothing)
        },
        WizardStep::Done => match key.code {
            KeyCode::Enter => (v, WizardEffect::Complete),
            KeyCode::Esc => (went_back(v), WizardEffect::Nothing),
            _ => (v, WizardEffect::Nothing),
        },
    }
}

/// The profile the wizard builds (self-signed certificates accepted, as
/// local controllers usually have them).
pub open spec fn wizard_profile(p: Profile, v: OnboardingView) -> bool {
    profile_built(p, v.url, v.site, v.auth_mode, v.api_key, v.username, v.password, true)
}

/// The effect handed to the application matches the transition's: a test
/// or a completion carries the profile built from the wizard's inputs.
pub open spec fn effect_fits(e: FormEffect, k: WizardEffect, v: OnboardingView) -> bool {
    match k {
        WizardEffect::Nothing => e is Nothing,
        WizardEffect::Test => e matches FormEffect::TestConnection(p) && wizard_profile(p, v),
        WizardEffect::Complete => e matches FormEffect::Apply(p) && wizard_profile(p, v),
    }
}

/// The wizard after a connection test's result: on success it moves to
/// Done, on failure it keeps the message.
pub open spec fn with_test_result(v: OnboardingView, ok: bool, msg: Seq<char>) -> OnboardingView {
    if ok {
        OnboardingView { testing: false, test_error: None, step: WizardStep::Done, ..v }
    } else {
        OnboardingView { testing: false, test_error: Some(msg), ..v }
    }
}

/// Enter on a step before the test either moves exactly one step forward
/// (and Esc then comes back to the same step) or, when the step's input is
/// refused, stays on the step with an error message.
pub proof fn lemma_advance_then_back(v: OnboardingView, url_ok: bool)
    requires
        step_index(v.step) <= 4,
    ensures
        advanced(v, url_ok).error is None ==> step_index(advanced(v, url_ok).step) == step_index(
            v.step,
        ) + 1 && went_back(advanced(v, url_ok)).step == v.step,
        advanced(v, url_ok).error is Some ==> advanced(v, url_ok).step == v.step,
{
}

/// Tab on the credentials step only ever focuses a field the mode asks
/// for; the first focused field is one too. Hybrid mode comes back to the
/// same field after three presses, legacy mode after two.
pub proof fn lemma_cred_field_cycle(mode: AuthMode, f: CredentialField)
    ensures
        field_used(mode, next_cred_field_spec(mode, f)),
        field_used(mode, first_cred_field(mode)),
        mode == AuthMode::Hybrid ==> next_cred_field_spec(
            mode,
            next_cred_field_spec(mode, next_cred_field_spec(mode, f)),
        ) == f,
        mode == AuthMode::Legacy && field_used(mode, f) ==> next_cred_field_spec(
            mode,
            next_cred_field_spec(mode, f),
        ) == f,
{
}

/// Every key press keeps the mode selector on one of the modes, and the
/// wizard never skips a step: after any key its position differs from
/// the one before by at most one, except that a cancelled test or Esc on
/// the done step returns to the site step.
pub proof fn lemma_key_moves_one_step(v: OnboardingView, key: KeyPress, url_ok: bool)
    requires
        onboarding_wf(v),
    ensures
        onboarding_wf(wizard_key(v, key, url_ok).0),
        ({
            let w = wizard_key(v, key, url_ok).0;
            step_index(w.step) <= step_index(v.step) + 1 && (step_index(w.step) + 1 >= step_index(
                v.step,
            ) || w.step == WizardStep::Site)
        }),
{
}

impl OnboardingState {
    /// The state's invariant: the mode selector is on one of the modes.
    pub open spec fn wf(&self) -> bool {
        onboarding_wf(self@)
    }

    /// A fresh wizard on its welcome step, with a typical controller URL
    /// and the default site filled in.
    pub fn new() -> (s: Self)
        ensures
            s.wf(),
            s@.step == WizardStep::Welcome,
            s@.url == "https://192.168.1.1"@,
            s@.auth_mode == AuthMode::ApiKey,
            s@.auth_mode_index == 0,
            s@.api_key.len() == 0,
            s@.username.len() == 0,
            s@.password.len() == 0,
            s@.site == "default"@,
            s@.cred_field == CredentialField::ApiKey,
            !s@.show_password,
            !s@.testing,
            s@.test_error is None,
            s@.error is None,
    {
        OnboardingState {
            step: WizardStep::Welcome,
            url_input: owned("https://192.168.1.1"),
            auth_mode: AuthMode::ApiKey,
            auth_mode_index: 0,
            api_key_input: String::new(),
            username_input: String::new(),
            password_input: String::new(),
            site_input: owned("default"),
            cred_field: CredentialField::ApiKey,
            show_password: false,
            testing: false,
            test_error: None,
            error: None,
        }
    }

    /// The current step.
    pub fn step(&self) -> (s: WizardStep)
        ensures
            s == self@.step,
    {
        self.step
    }

    /// The message of the step's last failed check.
    pub fn error(&self) -> (e: Option<String>)
        ensures
            crate::profile::opt_view(e) == self@.error,
    {
        match &self.error {
            Some(m) => Some(m.clone()),
            None => None,
        }
    }

    /// Checks the credentials entered for the chosen mode.
    pub fn validate_credentials(&self) -> (r: Result<(), String>)
        ensures
            match r {
                Ok(()) => credential_problem(
                    self@.auth_mode,
                    self@.api_key,
                    self@.username,
                    self@.password,
                ) is None,
                Err(msg) => credential_problem(
                    self@.auth_mode,
                    self@.api_key,
                    self@.username,
                    self@.password,
                ) == Some(msg@),
            },
    {
        check_credentials(
            self.auth_mode,
            self.api_key_input.as_str(),
            self.username_input.as_str(),
            self.password_input.as_str(),
        )
    }

    /// The profile for the wizard's inputs.
    pub fn build_profile(&self) -> (p: Profile)
        ensures
            wizard_profile(p, self@),
    {
        build_profile(
            self.url_input.as_str(),
            self.site_input.as_str(),
            self.auth_mode,
            self.api_key_input.as_str(),
            self.username_input.as_str(),
            self.password_input.as_str(),
            true,
        )
    }

    fn effect(&self, k: WizardEffect) -> (e: FormEffect)
        ensures
            effect_fits(e, k, self@),
    {
        match k {
            WizardEffect::Nothing => FormEffect::Nothing,
            WizardEffect::Test => FormEffect::TestConnection(self.build_profile()),
            WizardEffect::Complete => FormEffect::Apply(self.build_profile()),
        }
    }

    /// Enter, given whether the trimmed URL parses: validate the step's
    /// input and move on; from the site step this starts the connection
    /// test, from the done step it completes the wizard.
    pub fn advance_with(&mut self, url_ok: bool) -> (e: FormEffect)
        requires
            old(self).wf(),
        ensures
            final(self).wf(),
            final(self)@ == advanced(old(self)@, url_ok),
            effect_fits(
                e,
                if advance_tests(old(self)@) {
                    WizardEffect::Test
                } else if old(self)@.step == WizardStep::Done {
                    WizardEffect::Complete
                } else {
                    WizardEffect::Nothing
                },
                final(self)@,
            ),
    {
        self.error = None;
        match self.step {
            WizardStep::Welcome => {
                self.step = WizardStep::Url;
                FormEffect::Nothing
            },
            WizardStep::Url => {
                if is_blank(self.url_input.as_str()) {
                    self.error = Some(owned("URL cannot be empty"));
                } else if !url_ok {
                    self.error = Some(owned("Invalid URL format"));
                } else {
                    self.step = WizardStep::AuthMode;
                }
                FormEffect::Nothing
            },
            WizardStep::AuthMode => {
                let mode = auth_mode_at(self.auth_mode_index);
                self.auth_mode = mode;
                self.cred_field = match mode {
                    AuthMode::ApiKey | AuthMode::Hybrid => CredentialField::ApiKey,
                    AuthMode::Legacy => CredentialField::Username,
                };
                self.step = WizardStep::Credentials;
                FormEffect::Nothing
            },
            WizardStep::Credentials => {
                match self.validate_credentials() {
                    Err(msg) => self.error = Some(msg),
                    Ok(()) => self.step = WizardStep::Site,
                }
                FormEffect::Nothing
            },
            WizardStep::Site => {
                if is_blank(self.site_input.as_str()) {
                    self.error = Some(owned("Site name cannot be empty"));
                    FormEffect::Nothing
                } else {
                    self.step = WizardStep::Testing;
                    self.testing = true;
                    self.test_error = None;
                    self.effect(WizardEffect::Test)
                }
            },
            WizardStep::Testing => FormEffect::Nothing,
            WizardStep::Done => self.effect(WizardEffect::Complete),
        }
    }

    /// Enter: `advance_with` on whether the trimmed URL parses.
    pub fn advance(&mut self) -> (e: FormEffect)
        requires
            old(self).wf(),
        ensures
            final(self).wf(),
            final(self)@ == advanced(old(self)@, url_parse_ok(trimmed(old(self)@.url))),
            effect_fits(
                e,
                if advance_tests(old(self)@) {
                    WizardEffect::Test
                } else if old(self)@.step == WizardStep::Done {
                    WizardEffect::Complete
                } else {
                    WizardEffect::Nothing
                },
                final(self)@,
            ),
    {
        let ok = url_is_valid(self.url_input.as_str());
        self.advance_with(ok)
    }

    /// Esc: one step back.
    pub fn go_back(&mut self)
        ensures
            final(self)@ == went_back(old(self)@),
    {
        self.error = None;
        self.test_error = None;
        match self.step {
            WizardStep::Welcome => {},
            WizardStep::Url => self.step = WizardStep::Welcome,
            WizardStep::AuthMode => self.step = WizardStep::Url,
            WizardStep::Credentials => self.step = WizardStep::AuthMode,
            WizardStep::Site => self.step = WizardStep::Credentials,
            WizardStep::Testing => {
                self.testing = false;
                self.step = WizardStep::Site;
            },
            WizardStep::Done => self.step = WizardStep::Site,
        }
    }

    /// Tab on the credentials step: focus the next field the mode uses.
    pub fn next_cred_field(&mut self)
        ensures
            final(self)@ == (OnboardingView {
                cred_field: next_cred_field_spec(old(self)@.auth_mode, old(self)@.cred_field),
                ..old(self)@
            }),
    {
        self.cred_field = match (self.auth_mode, self.cred_field) {
            (AuthMode::ApiKey, _) => CredentialField::ApiKey,
            (AuthMode::Legacy, CredentialField::Username) => CredentialField::Password,
            (AuthMode::Legacy, CredentialField::Password) => CredentialField::Username,
            (AuthMode::Legacy, _) => CredentialField::Username,
            (AuthMode::Hybrid, CredentialField::ApiKey) => CredentialField::Username,
            (AuthMode::Hybrid, CredentialField::Username) => CredentialField::Password,
            (AuthMode::Hybrid, CredentialField::Password) => CredentialField::ApiKey,
        };
    }

    fn type_char(&mut self, c: char)
        ensures
            final(self)@ == typed_char(old(self)@, c),
    {
        match self.step {
            WizardStep::Url => push_char(&mut self.url_input, c),
            WizardStep::Site => push_char(&mut self.site_input, c),
            WizardStep::Credentials => match self.cred_field {
                CredentialField::ApiKey => push_char(&mut self.api_key_input, c),
                CredentialField::Username => push_char(&mut self.username_input, c),
                CredentialField::Password => push_char(&mut self.password_input, c),
            },
            _ => {},
        }
    }

    fn erase_char(&mut self)
        ensures
            final(self)@ == erased_char(old(self)@),
    {
        match self.step {
            WizardStep::Url => {
                let _ = pop_char(&mut self.url_input);
            },
            WizardStep::Site => {
                let _ = pop_char(&mut self.site_input);
            },
            WizardStep::Credentials => match self.cred_field {
                CredentialField::ApiKey => {
                    let _ = pop_char(&mut self.api_key_input);
                },
                CredentialField::Username => {
                    let _ = pop_char(&mut self.username_input);
                },
                CredentialField::Password => {
                    let _ = pop_char(&mut self.password_input);
                },
            },
            _ => {},
        }
    }

    /// A key press, given whether the trimmed URL parses (see
    /// `wizard_key`).
    pub fn handle_key_with(&mut self, key: KeyPress, url_ok: bool) -> (e: FormEffect)
        requires
            old(self).wf(),
        ensures
            final(self).wf(),
            final(self)@ == wizard_key(old(self)@, key, url_ok).0,
            effect_fits(e, wizard_key(old(self)@, key, url_ok).1, final(self)@),
    {
        if key.code != KeyCode::Enter {
            self.error = None;
        }
        match self.step {
            WizardStep::Welcome => {
                if key.code == KeyCode::Enter {
                    return self.advance_with(url_ok);
                }
                FormEffect::Nothing
            },
            WizardStep::Url | WizardStep::Site => match key.code {
                KeyCode::Enter => self.advance_with(url_ok),
                KeyCode::Esc => {
                    self.go_back();
                    FormEffect::Nothing
                },
                KeyCode::Backspace => {
                    self.erase_char();
                    FormEffect::Nothing
                },
                KeyCode::Char(c) => {
                    self.type_char(c);
                    FormEffect::Nothing
                },
                _ => FormEffect::Nothing,
            },
            WizardStep::AuthMode => match key.code {
                KeyCode::Up | KeyCode::Char('k') => {
                    if self.auth_mode_index > 0 {
                        self.auth_mode_index = self.auth_mode_index - 1;
                    }
                    FormEffect::Nothing
                },
                KeyCode::Down | KeyCode::Char('j') => {
                    if self.auth_mode_index < AUTH_MODE_COUNT - 1 {
                        self.auth_mode_index = self.auth_mode_index + 1;
                    }
                    FormEffect::Nothing
                },
                KeyCode::Enter => self.advance_with(url_ok),
                KeyCode::Esc => {
                    self.go_back();
                    FormEffect::Nothing
                },
                _ => FormEffect::Nothing,
            },
            WizardStep::Credentials => match key.code {
                KeyCode::Tab => {
                    self.next_cred_field();
                    FormEffect::Nothing
                },
                KeyCode::Enter => self.advance_with(url_ok),
                KeyCode::Esc => {
                    self.go_back();
                    FormEffect::Nothing
                },
                KeyCode::Backspace => {
                    self.erase_char();
                    FormEffect::Nothing
                },
                KeyCode::Char(c) => {
                    if key.modifiers.control && c == 'u' {
                        self.show_password = !self.show_password;
                    } else {
                        self.type_char(c);
                    }
                    FormEffect::Nothing
                },
                _ => FormEffect::Nothing,
            },
            WizardStep::Testing => {
                if key.code == KeyCode::Esc {
                    self.go_back();
                }
                FormEffect::Nothing
            },
            WizardStep::Done => match key.code {
                KeyCode::Enter => self.effect(WizardEffect::Complete),
                KeyCode::Esc => {
                    self.go_back();
                    FormEffect::Nothing
                },
                _ => FormEffect::Nothing,
            },
        }
    }

    /// A key press: `handle_key_with` on whether the trimmed URL parses.
    pub fn handle_key(&mut self, key: KeyPress) -> (e: FormEffect)
        requires
            old(self).wf(),
        ensures
            final(self).wf(),
            final(self)@ == wizard_key(old(self)@, key, url_parse_ok(trimmed(old(self)@.url))).0,
            effect_fits(
                e,
                wizard_key(old(self)@, key, url_parse_ok(trimmed(old(self)@.url))).1,
                final(self)@,
            ),
    {
        let ok = url_is_valid(self.url_input.as_str());
        self.handle_key_with(key, ok)
    }

    /// The connection test's result: `Ok` finishes the wizard, an error
    /// message is kept for display.
    pub fn apply_test_result(&mut self, result: Result<(), String>)
        ensures
            final(self)@ == match result {
                Ok(()) => with_test_result(old(self)@, true, Seq::<char>::empty()),
                Err(msg) => with_test_result(old(self)@, false, msg@),
            },
    {
        self.testing = false;
        match result {
            Ok(()) => {
                self.test_error = None;
                self.step = WizardStep::Done;
            },
            Err(msg) => {
                self.test_error = Some(msg);
            },
        }
    }
}

} // verus!
