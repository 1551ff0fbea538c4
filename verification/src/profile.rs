//! Controller profiles as the setup wizard and the settings form build
//! them: authentication modes, credential checks, URL validation.

use vstd::prelude::*;

use vstd::string::StrSliceExecFns;

use crate::text::{is_blank, lemma_trimmed_idempotent, owned, trim, trimmed};

pub use crate::urls::{url_is_valid, url_parse_ok};

verus! {

// ── Authentication modes ────────────────────────────────────────────

/// How the client authenticates against the controller.
#[derive(Debug, Clone, Copy, PartialEq, Eq, Structural)]
pub enum AuthMode {
    ApiKey,
    Legacy,
    Hybrid,
}

/// The modes in the order the selectors list them.
pub open spec fn auth_mode_at_spec(i: nat) -> AuthMode {
    if i == 0 {
        AuthMode::ApiKey
    } else if i == 1 {
        AuthMode::Legacy
    } else {
        AuthMode::Hybrid
    }
}

/// Position of a mode in the selector list.
pub open spec fn auth_mode_index_spec(m: AuthMode) -> nat {
    match m {
        AuthMode::ApiKey => 0,
        AuthMode::Legacy => 1,
        AuthMode::Hybrid => 2,
    }
}

/// Number of authentication modes.
pub const AUTH_MODE_COUNT: usize = 3;

/// The mode at a selector position.
pub fn auth_mode_at(i: usize) -> (m: AuthMode)
    requires
        i < AUTH_MODE_COUNT,
    ensures
        m == auth_mode_at_spec(i as nat),
{
    if i == 0 {
        AuthMode::ApiKey
    } else if i == 1 {
        AuthMode::Legacy
    } else {
        AuthMode::Hybrid
    }
}

/// Whether a mode uses an API key.
pub open spec fn uses_api_key(m: AuthMode) -> bool {
    m == AuthMode::ApiKey || m == AuthMode::Hybrid
}

/// Whether a mode uses a username and password.
pub open spec fn uses_password(m: AuthMode) -> bool {
    m == AuthMode::Legacy || m == AuthMode::Hybrid
}

/// The value a profile stores for a mode.
pub open spec fn config_value_spec(m: AuthMode) -> Seq<char> {
    match m {
        AuthMode::ApiKey => "integration"@,
        AuthMode::Legacy => "legacy"@,
        AuthMode::Hybrid => "hybrid"@,
    }
}

/// The mode a profile's stored value names; anything unknown is API key.
pub open spec fn from_config_spec(s: Seq<char>) -> AuthMode {
    if s == "legacy"@ {
        AuthMode::Legacy
    } else if s == "hybrid"@ {
        AuthMode::Hybrid
    } else {
        AuthMode::ApiKey
    }
}

impl AuthMode {
    /// Title shown in the selectors.
    pub fn label(self) -> (l: &'static str)
        ensures
            l@ == match self {
                AuthMode::ApiKey => "API Key (Integration API)"@,
                AuthMode::Legacy => "Username / Password (Legacy API)"@,
                AuthMode::Hybrid => "Hybrid (API Key + Credentials)"@,
            },
    {
        match self {
            AuthMode::ApiKey => "API Key (Integration API)",
            AuthMode::Legacy => "Username / Password (Legacy API)",
            AuthMode::Hybrid => "Hybrid (API Key + Credentials)",
        }
    }

    /// One-line description shown under the title.
    pub fn description(self) -> (d: &'static str)
        ensures
            d@ == match self {
                AuthMode::ApiKey => "Recommended for most setups"@,
                AuthMode::Legacy => "For stats, events, and admin operations"@,
                AuthMode::Hybrid => "Full access to both API surfaces"@,
            },
    {
        match self {
            AuthMode::ApiKey => "Recommended for most setups",
            AuthMode::Legacy => "For stats, events, and admin operations",
            AuthMode::Hybrid => "Full access to both API surfaces",
        }
    }

    /// The value stored in a profile.
    pub fn config_value(self) -> (v: &'static str)
        ensures
            v@ == config_value_spec(self),
    {
        match self {
            AuthMode::ApiKey => "integration",
            AuthMode::Legacy => "legacy",
            AuthMode::Hybrid => "hybrid",
        }
    }

    /// The mode a stored value names ("legacy", "hybrid"; anything else is
    /// API key).
    pub fn from_config(s: &str) -> (m: AuthMode)
        ensures
            m == from_config_spec(s@),
    {
        proof {
            reveal_strlit("legacy");
            reveal_strlit("hybrid");
        }
        if crate::text::str_eq(s, "legacy") {
            AuthMode::Legacy
        } else if crate::text::str_eq(s, "hybrid") {
            AuthMode::Hybrid
        } else {
            AuthMode::ApiKey
        }
    }

    /// Position of the mode in the selector list.
    pub fn index(self) -> (i: usize)
        ensures
            i == auth_mode_index_spec(self),
            i < AUTH_MODE_COUNT,
    {
        match self {
            AuthMode::ApiKey => 0,
            AuthMode::Legacy => 1,
            AuthMode::Hybrid => 2,
        }
    }
}

/// Stored values read back as the mode that wrote them, and positions in
/// the selector list are a round trip.
pub proof fn lemma_auth_mode_round_trips(m: AuthMode, i: nat)
    ensures
        from_config_spec(config_value_spec(m)) == m,
        auth_mode_at_spec(auth_mode_index_spec(m)) == m,
        i < 3 ==> auth_mode_index_spec(auth_mode_at_spec(i)) == i,
{
    reveal_strlit("integration");
    reveal_strlit("legacy");
    reveal_strlit("hybrid");
    assert("integration"@ != "legacy"@) by {
        assert("integration"@[0] != "legacy"@[0]);
    }
    assert("integration"@ != "hybrid"@) by {
        assert("integration"@[0] != "hybrid"@[0]);
    }
    assert("legacy"@ != "hybrid"@) by {
        assert("legacy"@[0] != "hybrid"@[0]);
    }
}

// ── Credential checks ───────────────────────────────────────────────

/// The first problem with the credentials entered for a mode, if any: an
/// API key or username that is blank once trimmed, or an empty password.
pub open spec fn credential_problem(
    mode: AuthMode,
    api_key: Seq<char>,
    username: Seq<char>,
    password: Seq<char>,
) -> Option<Seq<char>> {
    if uses_api_key(mode) && trimmed(api_key).len() == 0 {
        Some("API key cannot be empty"@)
    } else if uses_password(mode) && trimmed(username).len() == 0 {
        Some("Username cannot be empty"@)
    } else if uses_password(mode) && password.len() == 0 {
        Some("Password cannot be empty"@)
    } else {
        None
    }
}

/// Checks the credentials entered for a mode: `Ok` exactly when
/// `credential_problem` finds none, otherwise its message.
pub fn check_credentials(mode: AuthMode, api_key: &str, username: &str, password: &str) -> (r:
    Result<(), String>)
    ensures
        match r {
            Ok(()) => credential_problem(mode, api_key@, username@, password@) is None,
            Err(msg) => credential_problem(mode, api_key@, username@, password@) == Some(msg@),
        },
{
    let key_used = match mode {
        AuthMode::ApiKey | AuthMode::Hybrid => true,
        AuthMode::Legacy => false,
    };
    let pass_used = match mode {
        AuthMode::Legacy | AuthMode::Hybrid => true,
        AuthMode::ApiKey => false,
    };
    if key_used && is_blank(api_key) {
        return Err(owned("API key cannot be empty"));
    }
    if pass_used && is_blank(username) {
        return Err(owned("Username cannot be empty"));
    }
    if pass_used && password.unicode_len() == 0 {
        return Err(owned("Password cannot be empty"));
    }
    Ok(())
}

// ── Profiles ────────────────────────────────────────────────────────

/// A saved controller profile.
#[derive(Debug, Clone)]
pub struct Profile {
    pub controller: String,
    pub site: String,
    pub auth_mode: String,
    pub api_key: Option<String>,
    pub api_key_env: Option<String>,
    pub username: Option<String>,
    pub password: Option<String>,
    pub ca_cert: Option<String>,
    pub insecure: Option<bool>,
    pub timeout: Option<u64>,
}

/// The text of an optional string.
pub open spec fn opt_view(s: Option<String>) -> Option<Seq<char>> {
    match s {
        Some(t) => Some(t@),
        None => None,
    }
}

/// The profile a form builds: URL, site, API key and username trimmed, the
/// password as typed; credentials the mode does not use are left out, as
/// are the key's environment variable, the CA certificate and the timeout.
pub open spec fn profile_built(
    p: Profile,
    url: Seq<char>,
    site: Seq<char>,
    mode: AuthMode,
    api_key: Seq<char>,
    username: Seq<char>,
    password: Seq<char>,
    insecure: bool,
) -> bool {
    &&& p.controller@ == trimmed(url)
    &&& p.site@ == trimmed(site)
    &&& p.auth_mode@ == config_value_spec(mode)
    &&& opt_view(p.api_key) == if uses_api_key(mode) { Some(trimmed(api_key)) } else { None }
    &&& opt_view(p.username) == if uses_password(mode) { Some(trimmed(username)) } else { None }
    &&& opt_view(p.password) == if uses_password(mode) { Some(password) } else { None }
    &&& p.api_key_env is None
    &&& p.ca_cert is None
    &&& p.insecure == Some(insecure)
    &&& p.timeout is None
}

/// Builds the profile for a form's values (see `profile_built`).
pub fn build_profile(
    url: &str,
    site: &str,
    mode: AuthMode,
    api_key: &str,
    username: &str,
    password: &str,
    insecure: bool,
) -> (p: Profile)
    ensures
        profile_built(p, url@, site@, mode, api_key@, username@, password@, insecure),
{
    let key_used = match mode {
        AuthMode::ApiKey | AuthMode::Hybrid => true,
        AuthMode::Legacy => false,
    };
    let pass_used = match mode {
        AuthMode::Legacy | AuthMode::Hybrid => true,
        AuthMode::ApiKey => false,
    };
    Profile {
        controller: trim(url),
        site: trim(site),
        auth_mode: owned(mode.config_value()),
        api_key: if key_used { Some(trim(api_key)) } else { None },
        api_key_env: None,
        username: if pass_used { Some(trim(username)) } else { None },
        password: if pass_used { Some(owned(password)) } else { None },
        ca_cert: None,
        insecure: Some(insecure),
        timeout: None,
    }
}

/// What a form asks of the application after a key or a test result.
#[derive(Debug)]
pub enum FormEffect {
    /// Nothing beyond the form's own state.
    Nothing,
    /// Close the form.
    Close,
    /// Test a connection with this profile (and save it if it works).
    TestConnection(Profile),
    /// Apply this profile: connect with it.
    Apply(Profile),
}

/// The text of an optional string, empty when absent.
pub open spec fn or_empty(s: Option<Seq<char>>) -> Seq<char> {
    match s {
        Some(t) => t,
        None => Seq::<char>::empty(),
    }
}

/// Saving a form's profile and loading it back into a form gives the same
/// profile again: a built profile `p` loaded into a form (its URL, site,
/// mode, credentials and certificate setting taken over) builds a
/// profile `q` equal to `p` in every field.
pub proof fn lemma_profile_reload(
    p: Profile,
    q: Profile,
    url: Seq<char>,
    site: Seq<char>,
    mode: AuthMode,
    api_key: Seq<char>,
    username: Seq<char>,
    password: Seq<char>,
    insecure: bool,
)
    requires
        profile_built(p, url, site, mode, api_key, username, password, insecure),
        profile_built(
            q,
            p.controller@,
            p.site@,
            from_config_spec(p.auth_mode@),
            or_empty(opt_view(p.api_key)),
            or_empty(opt_view(p.username)),
            or_empty(opt_view(p.password)),
            match p.insecure {
                Some(b) => b,
                None => false,
            },
        ),
    ensures
        q.controller@ == p.controller@,
        q.site@ == p.site@,
        q.auth_mode@ == p.auth_mode@,
        opt_view(q.api_key) == opt_view(p.api_key),
        opt_view(q.username) == opt_view(p.username),
        opt_view(q.password) == opt_view(p.password),
        q.insecure == p.insecure,
        q.api_key_env is None && q.ca_cert is None && q.timeout is None,
{
    lemma_trimmed_idempotent(url);
    lemma_trimmed_idempotent(site);
    lemma_trimmed_idempotent(api_key);
    lemma_trimmed_idempotent(username);
    lemma_auth_mode_round_trips(mode, 0);
}

} // verus!
