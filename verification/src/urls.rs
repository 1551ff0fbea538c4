//! URLs: whether a text is one, the Integration API's base URL and the
//! event stream's address.

use vstd::prelude::*;

use crate::api::{integration_base_path, integration_base_path_spec, strip_trailing_slashes};
use crate::platform::ControllerPlatform;
use crate::text::{concat, decimal, str_eq, trim, trimmed, u64_to_string};

verus! {

/// The parts of a URL that the library reads: its scheme, host and
/// explicit port.
pub struct UrlParts {
    pub scheme: String,
    pub host: Option<String>,
    pub port: Option<u16>,
}

/// Mathematical value of a `UrlParts`.
pub struct UrlPartsView {
    pub scheme: Seq<char>,
    pub host: Option<Seq<char>>,
    pub port: Option<u16>,
}

impl View for UrlParts {
    type V = UrlPartsView;

    open spec fn view(&self) -> UrlPartsView {
        UrlPartsView {
            scheme: self.scheme@,
            host: match self.host {
                Some(h) => Some(h@),
                None => None,
            },
            port: self.port,
        }
    }
}

/// What `url::Url::parse` makes of a text, read through `Url::scheme`,
/// `Url::host_str` and `Url::port`; none when it does not parse as an
/// absolute URL.
pub uninterp spec fn url_parts(text: Seq<char>) -> Option<UrlPartsView>;

/// Whether the `url` crate parses a text as an absolute URL.
pub open spec fn url_parse_ok(text: Seq<char>) -> bool {
    url_parts(text) is Some
}

/// Calls `url::Url::parse` and reads the parsed URL's scheme, host and
/// explicit port. The result is named, not described: the WHATWG URL
/// grammar the crate implements takes pages to state.
#[verifier::external_body]
fn parse_url_parts(text: &str) -> (r: Option<UrlParts>)
    ensures
        match r {
            Some(p) => url_parts(text@) == Some(p@),
            None => url_parts(text@) is None,
        },
{
    match url::Url::parse(text) {
        Ok(u) => Some(UrlParts {
            scheme: u.scheme().to_string(),
            host: u.host_str().map(String::from),
            port: u.port(),
        }),
        Err(_) => None,
    }
}

/// Whether a URL text, once trimmed, parses as an absolute URL.
pub fn url_is_valid(text: &str) -> (ok: bool)
    ensures
        ok == url_parse_ok(trimmed(text@)),
{
    let t = trim(text);
    parse_url_parts(t.as_str()).is_some()
}

/// The event stream's path on a platform for a site; the cloud connector
/// has no event stream.
pub open spec fn websocket_path_spec(platform: ControllerPlatform, site: Seq<char>) -> Option<Seq<char>> {
    match platform {
        ControllerPlatform::UnifiOs => Some("/proxy/network/wss/s/"@ + site + "/events"@),
        ControllerPlatform::ClassicController => Some("/wss/s/"@ + site + "/events"@),
        ControllerPlatform::Cloud => None,
    }
}

/// The event stream's address for a controller URL's scheme, host and
/// port: `wss` for `https`, `ws` otherwise; `localhost` without a host;
/// the port only when the URL names one.
pub open spec fn websocket_url_spec(scheme: Seq<char>, host: Option<Seq<char>>, port: Option<u16>, path: Seq<char>) -> Seq<char> {
    let ws = if scheme == "https"@ { "wss"@ } else { "ws"@ };
    let h = match host {
        Some(h) => h,
        None => "localhost"@,
    };
    match port {
        Some(p) => ws + "://"@ + h + ":"@ + decimal(p as nat) + path,
        None => ws + "://"@ + h + path,
    }
}

/// The event stream's address from a controller URL's parts (see
/// `websocket_url_spec`); none on the cloud connector.
pub fn websocket_url_from(scheme: &str, host: Option<&str>, port: Option<u16>, platform: ControllerPlatform, site: &str) -> (r: Option<String>)
    ensures
        match websocket_path_spec(platform, site@) {
            Some(path) => r matches Some(t) && t@ == websocket_url_spec(
                scheme@,
                match host {
                    Some(h) => Some(h@),
                    None => None,
                },
                port,
                path,
            ),
            None => r is None,
        },
{
    let path = match platform {
        ControllerPlatform::UnifiOs => {
            let a = concat("/proxy/network/wss/s/", site);
            concat(a.as_str(), "/events")
        },
        ControllerPlatform::ClassicController => {
            let a = concat("/wss/s/", site);
            concat(a.as_str(), "/events")
        },
        ControllerPlatform::Cloud => {
            return None;
        },
    };
    let ws = if str_eq(scheme, "https") { "wss" } else { "ws" };
    let h = match host {
        Some(h) => h,
        None => "localhost",
    };
    let head = concat(ws, "://");
    let with_host = concat(head.as_str(), h);
    let url = match port {
        Some(p) => {
            let with_colon = concat(with_host.as_str(), ":");
            let digits = u64_to_string(p as u64);
            let with_port = concat(with_colon.as_str(), digits.as_str());
            concat(with_port.as_str(), path.as_str())
        },
        None => concat(with_host.as_str(), path.as_str()),
    };
    Some(url)
}

/// The event stream's address for a controller URL (see
/// `websocket_url_spec`), when the controller URL parses and the address
/// built parses too; none on the cloud connector.
pub open spec fn websocket_address(base: Seq<char>, platform: ControllerPlatform, site: Seq<char>) -> Option<Seq<char>> {
    match (websocket_path_spec(platform, site), url_parts(base)) {
        (Some(path), Some(p)) => {
            let t = websocket_url_spec(p.scheme, p.host, p.port, path);
            if url_parse_ok(t) {
                Some(t)
            } else {
                None
            }
        },
        _ => None,
    }
}

/// The event stream's address for a controller URL (see
/// `websocket_address`).
pub fn websocket_url(base: &str, platform: ControllerPlatform, site: &str) -> (r: Option<String>)
    ensures
        match r {
            Some(t) => websocket_address(base@, platform, site@) == Some(t@),
            None => websocket_address(base@, platform, site@) is None,
        },
{
    let p = match parse_url_parts(base) {
        Some(p) => p,
        None => return None,
    };
    let h: Option<&str> = match &p.host {
        Some(s) => Some(s.as_str()),
        None => None,
    };
    match websocket_url_from(p.scheme.as_str(), h, p.port, platform, site) {
        Some(t) => if parse_url_parts(t.as_str()).is_some() {
            Some(t)
        } else {
            None
        },
        None => None,
    }
}

// ── The Integration API's base URL ──────────────────────────────────

/// The longest controller URL that the library hands to the `url` crate
/// for rewriting; far beyond any real controller address, and small enough
/// that the rewritten URL stays within the crate's 4 GiB serialization
/// limit.
pub const URL_TEXT_LIMIT: usize = 1048576;

/// What `url::Url::parse` followed by `Url::path` gives for a text: the
/// parsed URL's path; none when the text does not parse as an absolute URL.
pub uninterp spec fn url_path(text: Seq<char>) -> Option<Seq<char>>;

/// What `url::Url::parse` followed by `Url::set_path` gives for a text and
/// a path: the parsed URL with its path replaced, serialized; none when the
/// text does not parse as an absolute URL.
pub uninterp spec fn url_with_path(text: Seq<char>, path: Seq<char>) -> Option<Seq<char>>;

/// Calls `url::Url::parse` and reads the parsed URL's path with
/// `Url::path`. The result is named, not described (see `url_parts`).
#[verifier::external_body]
fn parse_url_path(text: &str) -> (r: Option<String>)
    ensures
        match r {
            Some(p) => url_path(text@) == Some(p@),
            None => url_path(text@) is None,
        },
{
    match url::Url::parse(text) {
        Ok(u) => Some(u.path().to_string()),
        Err(_) => None,
    }
}

/// Calls `url::Url::parse`, replaces the parsed URL's path with
/// `Url::set_path` and returns the serialized URL. The result is named,
/// not described. `set_path` panics only when the serialization would
/// pass 4 GiB, which the bounds rule out: the text is short, and the new
/// path is at most a few characters longer than the parsed URL's own path.
#[verifier::external_body]
fn parse_with_path(text: &str, path: &str) -> (r: Option<String>)
    requires
        text@.len() <= URL_TEXT_LIMIT,
        url_path(text@) matches Some(p) ==> path@.len() <= p.len() + 64,
    ensures
        match r {
            Some(t) => url_with_path(text@, path@) == Some(t@),
            None => url_with_path(text@, path@) is None,
        },
{
    match url::Url::parse(text) {
        Ok(mut u) => {
            u.set_path(path);
            Some(u.as_str().to_string())
        },
        Err(_) => None,
    }
}

proof fn lemma_strip_trailing_slashes_len(s: Seq<char>)
    ensures
        strip_trailing_slashes(s).len() <= s.len(),
    decreases s.len(),
{
    if s.len() > 0 && s.last() == '/' {
        lemma_strip_trailing_slashes_len(s.drop_last());
    }
}

/// The Integration API's base URL for a controller URL: the URL's path
/// without trailing slashes, the platform's prefix added unless it already
/// ends at `/integration`, and one slash at the end. None when the URL does
/// not parse.
pub fn normalize_base_url(raw: &str, platform: ControllerPlatform) -> (r: Option<String>)
    requires
        raw@.len() <= URL_TEXT_LIMIT,
    ensures
        match url_path(raw@) {
            Some(p) => match r {
                Some(t) => url_with_path(raw@, integration_base_path_spec(p, platform)) == Some(t@),
                None => url_with_path(raw@, integration_base_path_spec(p, platform)) is None,
            },
            None => r is None,
        },
{
    let path = match parse_url_path(raw) {
        Some(p) => p,
        None => return None,
    };
    let base = integration_base_path(path.as_str(), platform);
    proof {
        lemma_strip_trailing_slashes_len(path@);
        reveal_strlit("/");
        reveal_strlit("/proxy/network/integration");
        reveal_strlit("/integration");
    }
    parse_with_path(raw, base.as_str())
}

} // verus!
