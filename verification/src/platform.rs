//! Controller platforms and the API paths each one uses.

use vstd::prelude::*;

verus! {

/// Which authentication strategy an API call uses.
#[derive(Debug, Clone, Copy, PartialEq, Eq, Structural)]
pub enum AuthStrategy {
    /// Cookie-based session (legacy API, WebSocket).
    Session,
    /// Local API key header (Integration API).
    ApiKey,
    /// Cloud API key (Site Manager, Cloud Connector).
    CloudApiKey,
}

/// The platform type of a UniFi controller.
#[derive(Debug, Clone, Copy, PartialEq, Eq, Structural)]
pub enum ControllerPlatform {
    /// UniFi OS device (UDM, UCG, ...): `/proxy/network` prefix.
    UnifiOs,
    /// Standalone Network Application: no prefix.
    ClassicController,
    /// Cloud-hosted via Site Manager / Cloud Connector.
    Cloud,
}

/// Text view of an optional static string.
pub open spec fn opt_text(o: Option<&'static str>) -> Option<Seq<char>> {
    match o {
        Some(s) => Some(s@),
        None => None,
    }
}

/// Path prefix of a platform's legacy API endpoints; none on the cloud
/// connector.
pub open spec fn legacy_prefix_text(p: ControllerPlatform) -> Option<Seq<char>> {
    match p {
        ControllerPlatform::UnifiOs => Some("/proxy/network"@),
        ControllerPlatform::ClassicController => Some(""@),
        ControllerPlatform::Cloud => None,
    }
}

/// Path template of a platform's WebSocket event stream, with a `{site}`
/// placeholder; none on the cloud connector.
pub open spec fn websocket_path_text(p: ControllerPlatform) -> Option<Seq<char>> {
    match p {
        ControllerPlatform::UnifiOs => Some("/proxy/network/wss/s/{site}/events"@),
        ControllerPlatform::ClassicController => Some("/wss/s/{site}/events"@),
        ControllerPlatform::Cloud => None,
    }
}

/// `pat` occurs in `s` at position `k` and at no other position.
pub open spec fn occurs_only_at(s: Seq<char>, pat: Seq<char>, k: int) -> bool {
    &&& 0 <= k && k + pat.len() <= s.len()
    &&& s.subrange(k, k + pat.len()) == pat
    &&& forall|i: int| 0 <= i && i + pat.len() <= s.len() && i != k ==> #[trigger] s.subrange(i, i + pat.len()) != pat
}

/// A platform has an event stream exactly when it has a legacy API; the
/// stream's path is the legacy prefix followed by `/wss/s/{site}/events`,
/// and the `{site}` placeholder occurs in it exactly once.
pub proof fn lemma_websocket_path_shape(p: ControllerPlatform)
    ensures
        websocket_path_text(p) is Some <==> legacy_prefix_text(p) is Some,
        websocket_path_text(p) matches Some(w) ==> w == legacy_prefix_text(p).unwrap() + "/wss/s/{site}/events"@
            && occurs_only_at(w, "{site}"@, legacy_prefix_text(p).unwrap().len() + 7int),
{
    reveal_strlit("/proxy/network");
    reveal_strlit("");
    reveal_strlit("/wss/s/{site}/events");
    reveal_strlit("/proxy/network/wss/s/{site}/events");
    reveal_strlit("{site}");
    if let Some(w) = websocket_path_text(p) {
        let pre = legacy_prefix_text(p).unwrap();
        let tail = "/wss/s/{site}/events"@;
        assert(w =~= pre + tail);
        let k: int = pre.len() + 7int;
        assert(forall|j: int| 0 <= j < pre.len() ==> pre[j] != '{');
        assert(forall|j: int| 0 <= j < tail.len() && j != 7 ==> tail[j] != '{');
        assert forall|i: int| 0 <= i && i + 6 <= w.len() && i != k implies #[trigger] w.subrange(i, i + 6)
            != "{site}"@ by {
            assert(w.subrange(i, i + 6)[0] == w[i]);
            if i < pre.len() {
                assert(w[i] == pre[i]);
            } else {
                assert(w[i] == tail[i - pre.len()]);
            }
        }
        assert(w.subrange(k, k + 6) =~= "{site}"@);
    }
}

impl ControllerPlatform {
    /// Path prefix of legacy API endpoints; none on the cloud connector,
    /// which has no legacy API.
    pub fn legacy_prefix(&self) -> (p: Option<&'static str>)
        ensures
            opt_text(p) == legacy_prefix_text(*self),
    {
        match self {
            ControllerPlatform::UnifiOs => Some("/proxy/network"),
            ControllerPlatform::ClassicController => Some(""),
            ControllerPlatform::Cloud => None,
        }
    }

    /// Path prefix of the Integration API.
    pub fn integration_prefix(&self) -> (p: &'static str)
        ensures
            p@ == match *self {
                ControllerPlatform::UnifiOs => "/proxy/network/integration"@,
                _ => "/integration"@,
            },
    {
        match self {
            ControllerPlatform::UnifiOs => "/proxy/network/integration",
            ControllerPlatform::ClassicController | ControllerPlatform::Cloud => "/integration",
        }
    }

    /// Login endpoint; none on the cloud (API key only).
    pub fn login_path(&self) -> (p: Option<&'static str>)
        ensures
            opt_text(p) == match *self {
                ControllerPlatform::UnifiOs => Some("/api/auth/login"@),
                ControllerPlatform::ClassicController => Some("/api/login"@),
                ControllerPlatform::Cloud => None,
            },
    {
        match self {
            ControllerPlatform::UnifiOs => Some("/api/auth/login"),
            ControllerPlatform::ClassicController => Some("/api/login"),
            ControllerPlatform::Cloud => None,
        }
    }

    /// Logout endpoint; none on the cloud.
    pub fn logout_path(&self) -> (p: Option<&'static str>)
        ensures
            opt_text(p) == match *self {
                ControllerPlatform::UnifiOs => Some("/api/auth/logout"@),
                ControllerPlatform::ClassicController => Some("/api/logout"@),
                ControllerPlatform::Cloud => None,
            },
    {
        match self {
            ControllerPlatform::UnifiOs => Some("/api/auth/logout"),
            ControllerPlatform::ClassicController => Some("/api/logout"),
            ControllerPlatform::Cloud => None,
        }
    }

    /// WebSocket path template (`{site}` is for the caller to replace);
    /// none on the cloud.
    pub fn websocket_path(&self) -> (p: Option<&'static str>)
        ensures
            opt_text(p) == websocket_path_text(*self),
    {
        match self {
            ControllerPlatform::UnifiOs => Some("/proxy/network/wss/s/{site}/events"),
            ControllerPlatform::ClassicController => Some("/wss/s/{site}/events"),
            ControllerPlatform::Cloud => None,
        }
    }
}

} // verus!
