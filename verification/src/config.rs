//! How to connect to a controller: credentials, TLS, timing and the event
//! stream. The interface builds a configuration and hands it to the
//! connection; nothing here reads or writes files.

use vstd::prelude::*;

use crate::controller::{AuthKind, TlsVerification};
use crate::text::owned;

verus! {

/// How to authenticate with a controller. `S` holds a secret (an API key
/// or a password); the library only carries it to the connection.
#[derive(Debug, Clone)]
pub enum AuthCredentials<S> {
    /// Integration API key (preferred).
    ApiKey(S),
    /// Legacy cookie-based login.
    Credentials { username: String, password: S },
    /// API key for the Integration API and a login for the legacy API.
    Hybrid { api_key: S, username: String, password: S },
    /// Cloud connector key and the console's host id.
    Cloud { api_key: S, host_id: String },
}

impl<S> AuthCredentials<S> {
    /// The kind of these credentials.
    pub open spec fn kind_spec(&self) -> AuthKind {
        match self {
            AuthCredentials::ApiKey(_) => AuthKind::ApiKey,
            AuthCredentials::Credentials { .. } => AuthKind::Credentials,
            AuthCredentials::Hybrid { .. } => AuthKind::Hybrid,
            AuthCredentials::Cloud { .. } => AuthKind::Cloud,
        }
    }

    /// The kind of these credentials, which decides how connecting goes
    /// (see `connect_plan`).
    pub fn kind(&self) -> (k: AuthKind)
        ensures
            k == self.kind_spec(),
    {
        match self {
            AuthCredentials::ApiKey(_) => AuthKind::ApiKey,
            AuthCredentials::Credentials { .. } => AuthKind::Credentials,
            AuthCredentials::Hybrid { .. } => AuthKind::Hybrid,
            AuthCredentials::Cloud { .. } => AuthKind::Cloud,
        }
    }
}

/// Configuration for connecting to one controller.
#[derive(Debug, Clone)]
pub struct ControllerConfig<S> {
    /// Controller URL, as the `url` crate serializes it.
    pub url: String,
    pub auth: AuthCredentials<S>,
    /// Site to operate on.
    pub site: String,
    pub tls: TlsVerification,
    /// Request timeout, in seconds.
    pub timeout_secs: u64,
    /// Seconds between full refreshes; 0 means never.
    pub refresh_interval_secs: u64,
    /// Whether to open the WebSocket event stream.
    pub websocket_enabled: bool,
    /// Polling interval when the event stream is unavailable, in seconds.
    pub polling_interval_secs: u64,
}

/// `b` is `a` with the event stream off and no periodic refresh.
pub open spec fn oneshot_of<S>(a: ControllerConfig<S>, b: ControllerConfig<S>) -> bool {
    &&& b.url@ == a.url@
    &&& b.auth == a.auth
    &&& b.site@ == a.site@
    &&& b.tls == a.tls
    &&& b.timeout_secs == a.timeout_secs
    &&& b.refresh_interval_secs == 0
    &&& !b.websocket_enabled
    &&& b.polling_interval_secs == a.polling_interval_secs
}

impl<S> ControllerConfig<S> {
    /// The default configuration: the controller at
    /// `https://192.168.1.1:8443/`, user `admin` with `empty_password`
    /// (the caller's empty secret), site `default`, no certificate check,
    /// a 30 s timeout, a full refresh every 300 s, the event stream on and
    /// polling every 10 s without it.
    pub fn default_with(empty_password: S) -> (c: Self)
        ensures
            c.url@ == "https://192.168.1.1:8443/"@,
            c.auth matches AuthCredentials::Credentials { username, password } && username@ == "admin"@
                && password == empty_password,
            c.site@ == "default"@,
            c.tls is DangerAcceptInvalid,
            c.timeout_secs == 30,
            c.refresh_interval_secs == 300,
            c.websocket_enabled,
            c.polling_interval_secs == 10,
    {
        ControllerConfig {
            url: owned("https://192.168.1.1:8443/"),
            auth: AuthCredentials::Credentials { username: owned("admin"), password: empty_password },
            site: owned("default"),
            tls: TlsVerification::DangerAcceptInvalid,
            timeout_secs: 30,
            refresh_interval_secs: 300,
            websocket_enabled: true,
            polling_interval_secs: 10,
        }
    }

    /// The configuration for a single request-response cycle: the same,
    /// with the WebSocket event stream and the periodic refresh turned off.
    pub fn for_oneshot(self) -> (c: Self)
        ensures
            oneshot_of(self, c),
    {
        let mut c = self;
        c.websocket_enabled = false;
        c.refresh_interval_secs = 0;
        c
    }
}

} // verus!
