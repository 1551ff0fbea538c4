//! Decisions of the HTTP clients: endpoint URLs, pagination, and how a
//! reply becomes an error. Sending requests is the caller's part.

use vstd::prelude::*;
use vstd::string::StrSliceExecFns;

use crate::platform::ControllerPlatform;
use crate::text::{concat, str_eq};

verus! {

// ── Errors ──────────────────────────────────────────────────────────

/// Errors of the API clients, as far as their decisions produce them.
#[derive(Debug)]
pub enum ApiError {
    /// The session expired or the credentials are wrong.
    Authentication { message: String },
    /// The legacy API refused the request.
    LegacyApi { message: String },
    /// The Integration API rejected the key.
    InvalidApiKey,
    /// The Integration API refused the request.
    Integration { status: u16, message: String, code: Option<String> },
}

/// The text of an optional string.
pub open spec fn opt_str(s: Option<String>) -> Option<Seq<char>> {
    match s {
        Some(t) => Some(t@),
        None => None,
    }
}

/// The outcome of a legacy reply's `meta.rc`: "ok" passes, anything else
/// is refused with the reply's message, or `rc=<rc>` without one.
pub fn envelope_outcome(rc: &str, msg: Option<String>) -> (r: Result<(), ApiError>)
    ensures
        rc@ == "ok"@ ==> r is Ok,
        rc@ != "ok"@ ==> (r matches Err(ApiError::LegacyApi { message }) && message@ == match opt_str(
            msg,
        ) {
            Some(m) => m,
            None => "rc="@ + rc@,
        }),
{
    if str_eq(rc, "ok") {
        Ok(())
    } else {
        let message = match msg {
            Some(m) => m,
            None => concat("rc=", rc),
        };
        Err(ApiError::LegacyApi { message })
    }
}

/// The error a UniFi OS error object in a successful reply stands for:
/// code 401 is an authentication failure carrying the message; any other
/// code is a legacy API error naming the code.
pub fn unifi_os_error(code: u16, message: Option<String>) -> (e: ApiError)
    ensures
        code == 401 ==> (e matches ApiError::Authentication { message: m } && m@ == match opt_str(
            message,
        ) {
            Some(t) => t,
            None => Seq::<char>::empty(),
        }),
        code != 401 ==> (e matches ApiError::LegacyApi { message: m } && m@ == "UniFi OS error "@
            + crate::text::decimal(code as nat) + ": "@ + match opt_str(message) {
            Some(t) => t,
            None => Seq::<char>::empty(),
        }),
{
    let msg = match message {
        Some(m) => m,
        None => String::new(),
    };
    if code == 401 {
        ApiError::Authentication { message: msg }
    } else {
        let head = crate::text::decimal_with_suffix(code as u64, ": ");
        let with_code = concat("UniFi OS error ", head.as_str());
        ApiError::LegacyApi { message: concat(with_code.as_str(), msg.as_str()) }
    }
}

/// The error a legacy reply's HTTP status stands for, before its body is
/// read: none for a success (2xx); 401 is an expired session or bad
/// credentials; 403 is missing permissions; any other status is refused
/// with its display text (`display`, such as `404 Not Found`) and the start
/// of the body (`preview`).
pub fn legacy_status_error(status: u16, display: &str, preview: &str) -> (r: Option<ApiError>)
    ensures
        200 <= status < 300 ==> r is None,
        status == 401 ==> (r matches Some(ApiError::Authentication { message }) && message@
            == "session expired or invalid credentials"@),
        status == 403 ==> (r matches Some(ApiError::LegacyApi { message }) && message@
            == "insufficient permissions (HTTP 403)"@),
        !(200 <= status < 300) && status != 401 && status != 403 ==> (r matches Some(
            ApiError::LegacyApi { message },
        ) && message@ == "HTTP "@ + display@ + ": "@ + preview@),
{
    if status == 401 {
        Some(ApiError::Authentication { message: crate::text::owned("session expired or invalid credentials") })
    } else if status == 403 {
        Some(ApiError::LegacyApi { message: crate::text::owned("insufficient permissions (HTTP 403)") })
    } else if 200 <= status && status < 300 {
        None
    } else {
        let head = concat("HTTP ", display);
        let with_sep = concat(head.as_str(), ": ");
        Some(ApiError::LegacyApi { message: concat(with_sep.as_str(), preview) })
    }
}

/// The body of an Integration API error reply, when it parses.
pub struct ErrorBody {
    pub message: Option<String>,
    pub code: Option<String>,
}

/// The error for a failed Integration API reply with HTTP status `status`
/// (`status_text` its display text), raw body `raw`, and `parsed` the body
/// read as an error object if it is one: 401 means a bad key; otherwise
/// the error carries the status, the object's message (else the status
/// text) and code, or the raw body (else the status text).
pub fn integration_error(status: u16, status_text: String, raw: String, parsed: Option<ErrorBody>) -> (e:
    ApiError)
    ensures
        status == 401 ==> e is InvalidApiKey,
        status != 401 ==> match parsed {
            Some(b) => e matches ApiError::Integration { status: s, message, code } && s == status
                && message@ == match opt_str(b.message) {
                Some(m) => m,
                None => status_text@,
            } && opt_str(code) == opt_str(b.code),
            None => e matches ApiError::Integration { status: s, message, code } && s == status
                && message@ == (if raw@.len() == 0 {
                status_text@
            } else {
                raw@
            }) && code is None,
        },
{
    if status == 401 {
        return ApiError::InvalidApiKey;
    }
    match parsed {
        Some(b) => ApiError::Integration {
            status,
            message: match b.message {
                Some(m) => m,
                None => status_text,
            },
            code: b.code,
        },
        None => {
            ApiError::Integration {
                status,
                message: if raw.as_str().unicode_len() == 0 {
                    status_text
                } else {
                    raw
                },
                code: None,
            }
        },
    }
}

// ── Endpoint URLs ───────────────────────────────────────────────────

/// `s` without its trailing slashes.
pub open spec fn strip_trailing_slashes(s: Seq<char>) -> Seq<char>
    decreases s.len(),
{
    if s.len() > 0 && s.last() == '/' {
        strip_trailing_slashes(s.drop_last())
    } else {
        s
    }
}

/// A text without its trailing slashes (`trim_end_matches('/')`).
pub fn trim_trailing_slashes(s: &str) -> (r: String)
    ensures
        r@ == strip_trailing_slashes(s@),
{
    let v = crate::text::chars_of(s);
    let mut j: usize = v.len();
    assert(v@.subrange(0, j as int) =~= v@);
    while j > 0 && v[j - 1] == '/'
        invariant
            j <= v@.len(),
            strip_trailing_slashes(v@.subrange(0, j as int)) == strip_trailing_slashes(s@),
            v@ == s@,
        decreases j,
    {
        assert(v@.subrange(0, j as int).drop_last() =~= v@.subrange(0, j - 1));
        j = j - 1;
    }
    let mut w: Vec<char> = Vec::new();
    let mut i: usize = 0;
    while i < j
        invariant
            i <= j <= v@.len(),
            w@ == v@.subrange(0, i as int),
        decreases j - i,
    {
        w.push(v[i]);
        i = i + 1;
    }
    crate::text::string_from_chars(&w)
}

/// The legacy API prefix of a platform, empty where there is none.
pub open spec fn legacy_prefix_text(p: ControllerPlatform) -> Seq<char> {
    match p {
        ControllerPlatform::UnifiOs => "/proxy/network"@,
        _ => ""@,
    }
}

/// A controller-level legacy endpoint: `{base}{prefix}/api/{path}`, the
/// base and prefix without trailing slashes.
pub fn legacy_api_url(base: &str, platform: ControllerPlatform, path: &str) -> (u: String)
    ensures
        u@ == strip_trailing_slashes(base@) + strip_trailing_slashes(legacy_prefix_text(platform))
            + "/api/"@ + path@,
{
    let prefix = match platform.legacy_prefix() {
        Some(p) => p,
        None => "",
    };
    let b = trim_trailing_slashes(base);
    let p = trim_trailing_slashes(prefix);
    let head = concat(b.as_str(), p.as_str());
    let with_api = concat(head.as_str(), "/api/");
    concat(with_api.as_str(), path)
}

/// A site-scoped legacy endpoint: `{base}{prefix}/api/s/{site}/{path}`.
pub fn legacy_site_url(base: &str, platform: ControllerPlatform, site: &str, path: &str) -> (u:
    String)
    ensures
        u@ == strip_trailing_slashes(base@) + strip_trailing_slashes(legacy_prefix_text(platform))
            + "/api/s/"@ + site@ + "/"@ + path@,
{
    let prefix = match platform.legacy_prefix() {
        Some(p) => p,
        None => "",
    };
    let b = trim_trailing_slashes(base);
    let p = trim_trailing_slashes(prefix);
    let head = concat(b.as_str(), p.as_str());
    let with_api = concat(head.as_str(), "/api/s/");
    let with_site = concat(with_api.as_str(), site);
    let with_slash = concat(with_site.as_str(), "/");
    concat(with_slash.as_str(), path)
}

/// Whether `s` ends with `p`.
pub open spec fn ends_with_spec(s: Seq<char>, p: Seq<char>) -> bool {
    s.len() >= p.len() && s.subrange(s.len() - p.len(), s.len() as int) == p
}

fn ends_with(s: &Vec<char>, p: &Vec<char>) -> (r: bool)
    ensures
        r == ends_with_spec(s@, p@),
{
    if s.len() < p.len() {
        return false;
    }
    let off = s.len() - p.len();
    let mut i: usize = 0;
    while i < p.len()
        invariant
            off + p@.len() == s@.len(),
            off + p@.len() <= usize::MAX,
            i <= p@.len(),
            forall|k: int| 0 <= k < i ==> s@[off + k] == p@[k],
        decreases p.len() - i,
    {
        if s[off + i] != p[i] {
            assert(s@.subrange(off as int, s@.len() as int)[i as int] != p@[i as int]);
            return false;
        }
        i = i + 1;
    }
    assert(s@.subrange(off as int, s@.len() as int) =~= p@);
    true
}

/// The Integration API's base path for a URL path: the path without
/// trailing slashes, the platform's prefix added unless the path already
/// ends at `/integration`, and one slash at the end.
pub open spec fn integration_base_path_spec(path: Seq<char>, platform: ControllerPlatform) -> Seq<char> {
    let t = strip_trailing_slashes(path);
    if ends_with_spec(t, "/integration"@) {
        t + "/"@
    } else {
        t + match platform {
            ControllerPlatform::UnifiOs => "/proxy/network/integration"@,
            _ => "/integration"@,
        } + "/"@
    }
}

/// The Integration API's base path for a URL path (see
/// `integration_base_path_spec`).
pub fn integration_base_path(path: &str, platform: ControllerPlatform) -> (r: String)
    ensures
        r@ == integration_base_path_spec(path@, platform),
{
    let t = trim_trailing_slashes(path);
    let tv = crate::text::chars_of(t.as_str());
    let suffix = crate::text::chars_of("/integration");
    if ends_with(&tv, &suffix) {
        concat(t.as_str(), "/")
    } else {
        let with_prefix = concat(t.as_str(), platform.integration_prefix());
        concat(with_prefix.as_str(), "/")
    }
}

// ── Pagination ──────────────────────────────────────────────────────

/// Whether to fetch another page after one of `received` items, with
/// `collected` items gathered so far (this page included) out of
/// `total_count`: stop on a short page or once everything is there.
pub open spec fn another_page(limit: i32, received: nat, collected: nat, total_count: i64) -> bool {
    let limit_n: int = if limit >= 0 { limit as int } else { 0 };
    let collected_n: int = if collected <= i64::MAX { collected as int } else { i64::MAX as int };
    !(received < limit_n || collected_n >= total_count)
}

/// After a page: `None` to stop, or the offset of the next page.
pub fn next_page_offset(limit: i32, received: usize, collected: usize, total_count: i64, offset: i64) -> (r:
    Option<i64>)
    requires
        another_page(limit, received as nat, collected as nat, total_count) ==> offset
            + saturated(received as nat) <= i64::MAX,
    ensures
        another_page(limit, received as nat, collected as nat, total_count) ==> r == Some(
            (offset + saturated(received as nat)) as i64,
        ),
        !another_page(limit, received as nat, collected as nat, total_count) ==> r is None,
{
    let limit_n: u64 = if limit >= 0 { limit as u64 } else { 0 };
    let received_n: u64 = received as u64;
    let collected_u: u64 = collected as u64;
    let collected_n: i64 = if collected_u <= 0x7fff_ffff_ffff_ffffu64 { collected_u as i64 } else { i64::MAX };
    if received_n < limit_n || collected_n >= total_count {
        None
    } else {
        let step: i64 = if received_n <= 0x7fff_ffff_ffff_ffffu64 { received_n as i64 } else { i64::MAX };
        Some(offset + step)
    }
}

/// A count as an `i64`, saturating at its maximum.
pub open spec fn saturated(n: nat) -> int {
    if n <= i64::MAX { n as int } else { i64::MAX as int }
}

/// With a positive page size, fetching another page always moves the
/// offset forward by at least a full page.
pub proof fn lemma_pages_advance(limit: i32, received: nat, collected: nat, total_count: i64)
    requires
        limit > 0,
        another_page(limit, received, collected, total_count),
    ensures
        received >= limit,
{
}

/// One page of a paginated listing: its items and the total number of
/// items the server reports for the whole listing.
pub struct Page<T> {
    pub data: Vec<T>,
    pub total_count: i64,
}

/// Collects a paginated listing page by page. Pages are asked for with a
/// fixed limit, starting at offset 0; each next offset is the number of
/// items collected so far.
pub struct Pager<T> {
    pub limit: i32,
    pub offset: i64,
    pub items: Vec<T>,
}

/// What to do after a fetch.
pub enum PageStep<T, E> {
    /// Fetch the page at the pager's offset (`Pager::request`).
    Fetch(Pager<T>),
    /// The listing is complete: every item, in page order.
    Complete(Vec<T>),
    /// A fetch failed: the listing fails with its error, and nothing more
    /// is fetched.
    Failed(E),
}

impl<T> Pager<T> {
    /// The next offset is the number of items collected.
    pub open spec fn wf(&self) -> bool {
        self.offset == self.items@.len()
    }

    /// A pager that asks for pages of `limit` items, nothing collected.
    pub fn new(limit: i32) -> (p: Self)
        ensures
            p.wf(),
            p.limit == limit,
            p.offset == 0,
            p.items@.len() == 0,
    {
        Pager { limit, offset: 0, items: Vec::new() }
    }

    /// The offset and limit of the page to fetch next.
    pub fn request(&self) -> (r: (i64, i32))
        ensures
            r == (self.offset, self.limit),
    {
        (self.offset, self.limit)
    }

    /// Takes the result of fetching the requested page: a failure ends
    /// the listing with its error; a page's items are appended, and the
    /// listing goes on unless the page was short or the reported total is
    /// reached.
    pub fn on_fetch<E>(self, fetched: Result<Page<T>, E>) -> (step: PageStep<T, E>)
        requires
            self.wf(),
            fetched matches Ok(page) ==> self.items@.len() + page.data@.len() <= i64::MAX,
        ensures
            match fetched {
                Err(e) => step == PageStep::<T, E>::Failed(e),
                Ok(page) => {
                    let all = self.items@ + page.data@;
                    if another_page(self.limit, page.data@.len(), all.len(), page.total_count) {
                        step matches PageStep::Fetch(p) && p.wf() && p.limit == self.limit && p.items@
                            == all
                    } else {
                        step matches PageStep::Complete(v) && v@ == all
                    }
                },
            },
    {
        match fetched {
            Err(e) => PageStep::Failed(e),
            Ok(page) => {
                let Page { data, total_count } = page;
                let received = data.len();
                let mut items = self.items;
                let mut data = data;
                items.append(&mut data);
                let more = next_page_offset(self.limit, received, items.len(), total_count, self.offset);
                match more {
                    Some(offset) => PageStep::Fetch(Pager { limit: self.limit, offset, items }),
                    None => PageStep::Complete(items),
                }
            },
        }
    }
}

} // verus!
