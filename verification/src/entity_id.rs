//! Identity types: entity identifiers and normalized MAC addresses.
//!
//! An `EntityId` is either a UUID (Integration API) or an opaque legacy
//! object-id string (Legacy API). A `MacAddress` is kept in lowercase,
//! colon-separated form.

use vstd::prelude::*;

use crate::text::{chars_of, lowercase_of, owned, string_from_chars, to_lowercase};

verus! {

// ── UUID text, through the `uuid` crate ────────────────────────────

/// What `uuid::Uuid::parse_str` accepts, as the 128-bit value it yields.
pub uninterp spec fn uuid_parse(text: Seq<char>) -> Option<u128>;

/// The text that `uuid::Uuid`'s `Display` writes for a 128-bit value.
pub uninterp spec fn uuid_text(bits: u128) -> Seq<char>;

/// `uuid::Uuid::parse_str`, with the parsed UUID given as its 128 bits
/// (`Uuid::as_u128`). The contract names the result and says nothing more.
#[verifier::external_body]
pub(crate) fn parse_uuid(text: &str) -> (r: Option<u128>)
    ensures
        r == uuid_parse(text@),
{
    match uuid::Uuid::parse_str(text) {
        Ok(u) => Some(u.as_u128()),
        Err(_) => None,
    }
}

/// `Display` of `uuid::Uuid::from_u128(bits)`: the hyphenated lowercase
/// form. The contract names the text and states that `Uuid::parse_str`
/// reads it back as the same value, which the crate's parser guarantees for
/// the hyphenated form its formatter writes.
#[verifier::external_body]
fn format_uuid(bits: u128) -> (s: String)
    ensures
        s@ == uuid_text(bits),
        uuid_parse(s@) == Some(bits),
{
    uuid::Uuid::from_u128(bits).to_string()
}

// ── EntityId ────────────────────────────────────────────────────────

/// Canonical identifier for any UniFi entity: a UUID (Integration API),
/// held as its 128 bits, or a legacy object-id string (Legacy API).
#[derive(Debug, Clone, PartialEq, Eq, Hash)]
pub enum EntityId {
    Uuid(u128),
    Legacy(String),
}

/// Mathematical value of an `EntityId`.
pub enum EntityIdView {
    Uuid(u128),
    Legacy(Seq<char>),
}

impl View for EntityId {
    type V = EntityIdView;

    open spec fn view(&self) -> EntityIdView {
        match self {
            EntityId::Uuid(u) => EntityIdView::Uuid(*u),
            EntityId::Legacy(s) => EntityIdView::Legacy(s@),
        }
    }
}

/// The id that a text denotes: a UUID when the text parses as one,
/// otherwise a legacy id holding the text.
pub open spec fn id_from_text(s: Seq<char>) -> EntityIdView {
    match uuid_parse(s) {
        Some(u) => EntityIdView::Uuid(u),
        None => EntityIdView::Legacy(s),
    }
}

/// The text an id is displayed as.
pub open spec fn id_text(id: EntityIdView) -> Seq<char> {
    match id {
        EntityIdView::Uuid(u) => uuid_text(u),
        EntityIdView::Legacy(s) => s,
    }
}

impl EntityId {
    /// The id denoted by a text: a UUID if it parses as one, else legacy.
    pub fn from_text(s: &str) -> (id: EntityId)
        ensures
            id@ == id_from_text(s@),
    {
        match parse_uuid(s) {
            Some(u) => EntityId::Uuid(u),
            None => EntityId::Legacy(owned(s)),
        }
    }

    /// The UUID bits, for a UUID id.
    pub fn as_uuid(&self) -> (r: Option<u128>)
        ensures
            r == match self@ {
                EntityIdView::Uuid(u) => Some(u),
                EntityIdView::Legacy(_) => None::<u128>,
            },
    {
        match self {
            EntityId::Uuid(u) => Some(*u),
            EntityId::Legacy(_) => None,
        }
    }

    /// The legacy object-id text, for a legacy id.
    pub fn as_legacy(&self) -> (r: Option<&str>)
        ensures
            match self@ {
                EntityIdView::Legacy(s) => r is Some && r->0@ == s,
                EntityIdView::Uuid(_) => r is None,
            },
    {
        match self {
            EntityId::Legacy(s) => Some(s.as_str()),
            EntityId::Uuid(_) => None,
        }
    }

    /// The display text of the id (a UUID in hyphenated lowercase form,
    /// or the legacy text itself).
    pub fn to_string(&self) -> (s: String)
        ensures
            s@ == id_text(self@),
    {
        match self {
            EntityId::Uuid(u) => format_uuid(*u),
            EntityId::Legacy(s) => s.clone(),
        }
    }

    /// A copy of the id.
    pub fn duplicate(&self) -> (r: EntityId)
        ensures
            r@ == self@,
    {
        match self {
            EntityId::Uuid(u) => EntityId::Uuid(*u),
            EntityId::Legacy(s) => EntityId::Legacy(s.clone()),
        }
    }

    /// Whether two ids are the same id.
    pub fn same(&self, other: &EntityId) -> (r: bool)
        ensures
            r == (self@ == other@),
    {
        match (self, other) {
            (EntityId::Uuid(a), EntityId::Uuid(b)) => *a == *b,
            (EntityId::Legacy(a), EntityId::Legacy(b)) => a.eq(b),
            _ => false,
        }
    }
}

impl From<String> for EntityId {
    fn from(s: String) -> (id: EntityId) {
        match parse_uuid(s.as_str()) {
            Some(u) => EntityId::Uuid(u),
            None => EntityId::Legacy(s),
        }
    }
}

impl vstd::std_specs::convert::FromSpecImpl<String> for EntityId {
    open spec fn obeys_from_spec() -> bool {
        true
    }

    open spec fn from_spec(s: String) -> EntityId {
        match uuid_parse(s@) {
            Some(u) => EntityId::Uuid(u),
            None => EntityId::Legacy(s),
        }
    }
}

/// Reading an id back from its display text gives the same id, for every
/// UUID id and for every legacy id whose text does not parse as a UUID.
pub proof fn lemma_id_text_round_trip(id: EntityIdView)
    requires
        id matches EntityIdView::Legacy(s) ==> uuid_parse(s) is None,
        id matches EntityIdView::Uuid(u) ==> uuid_parse(uuid_text(u)) == Some(u),
    ensures
        id_from_text(id_text(id)) == id,
{
}

// ── MacAddress ──────────────────────────────────────────────────────

/// `s` with every `-` replaced by `:`.
pub open spec fn dashes_to_colons(s: Seq<char>) -> Seq<char> {
    s.map_values(|c: char| if c == '-' { ':' } else { c })
}

/// A lowercase hexadecimal digit.
pub open spec fn is_lower_hex(c: char) -> bool {
    ('0' <= c && c <= '9') || ('a' <= c && c <= 'f')
}

/// Bare hex: exactly twelve lowercase hexadecimal digits.
pub open spec fn is_bare_hex(t: Seq<char>) -> bool {
    t.len() == 12 && forall|i: int| 0 <= i < 12 ==> is_lower_hex(#[trigger] t[i])
}

/// Twelve digits as six colon-separated pairs.
pub open spec fn colon_pairs(t: Seq<char>) -> Seq<char> {
    seq![
        t[0], t[1], ':', t[2], t[3], ':', t[4], t[5], ':', t[6], t[7], ':', t[8], t[9], ':', t[10],
        t[11],
    ]
}

/// The normalized form of a MAC address text: lowercased (Unicode, as std
/// `str::to_lowercase`), dashes turned into colons, and bare hex split into
/// colon-separated pairs.
pub open spec fn normalized_mac(raw: Seq<char>) -> Seq<char> {
    let t = dashes_to_colons(lowercase_of(raw));
    if is_bare_hex(t) {
        colon_pairs(t)
    } else {
        t
    }
}

/// MAC address, normalized to lowercase colon-separated format
/// (`aa:bb:cc:dd:ee:ff`).
#[derive(Debug, Clone, PartialEq, Eq, Hash)]
pub struct MacAddress(String);

impl View for MacAddress {
    type V = Seq<char>;

    closed spec fn view(&self) -> Seq<char> {
        self.0@
    }
}

impl MacAddress {
    /// Create a normalized MAC address from any common format
    /// (colon-separated, dash-separated, or bare hex).
    pub fn new(raw: &str) -> (m: MacAddress)
        ensures
            m@ == normalized_mac(raw@),
    {
        let lower = to_lowercase(raw);
        let v = chars_of(lower.as_str());
        let mut w: Vec<char> = Vec::new();
        let mut i: usize = 0;
        while i < v.len()
            invariant
                i <= v.len(),
                v@ == lowercase_of(raw@),
                w@ == dashes_to_colons(v@.subrange(0, i as int)),
            decreases v.len() - i,
        {
            let c = v[i];
            w.push(if c == '-' { ':' } else { c });
            i = i + 1;
            assert(w@ =~= dashes_to_colons(v@.subrange(0, i as int)));
        }
        assert(v@.subrange(0, v@.len() as int) == v@);
        let mut bare = w.len() == 12;
        let mut j: usize = 0;
        while bare && j < w.len()
            invariant
                j <= w@.len(),
                bare ==> w@.len() == 12,
                bare ==> forall|k: int| 0 <= k < j ==> is_lower_hex(#[trigger] w@[k]),
                !bare ==> !is_bare_hex(w@),
            decreases w.len() - j,
        {
            let c = w[j];
            if !(('0' <= c && c <= '9') || ('a' <= c && c <= 'f')) {
                bare = false;
            }
            j = j + 1;
        }
        if bare {
            let p = vec![
                w[0], w[1], ':', w[2], w[3], ':', w[4], w[5], ':', w[6], w[7], ':', w[8], w[9], ':',
                w[10], w[11],
            ];
            assert(p@ =~= colon_pairs(w@));
            MacAddress(string_from_chars(&p))
        } else {
            MacAddress(string_from_chars(&w))
        }
    }

    /// The normalized text.
    pub fn as_str(&self) -> (s: &str)
        ensures
            s@ == self@,
    {
        self.0.as_str()
    }

    /// The normalized text, as a new `String`.
    pub fn to_string(&self) -> (s: String)
        ensures
            s@ == self@,
    {
        self.0.clone()
    }

    /// A copy of the address.
    pub fn duplicate(&self) -> (r: MacAddress)
        ensures
            r@ == self@,
    {
        MacAddress(self.0.clone())
    }

    /// Whether two addresses are the same.
    pub fn same(&self, other: &MacAddress) -> (r: bool)
        ensures
            r == (self@ == other@),
    {
        self.0.eq(&other.0)
    }
}

/// Two texts of one length that differ at most in which separator (`-`
/// or `:`) stands at a position.
pub open spec fn same_up_to_separators(x: Seq<char>, y: Seq<char>) -> bool {
    &&& x.len() == y.len()
    &&& forall|i: int| 0 <= i < x.len() ==> #[trigger] x[i] == y[i] || ((x[i] == '-' || x[i] == ':') && (
        y[i] == '-' || y[i] == ':'))
}

/// MAC normalization ignores letter case and the choice of separator: two
/// texts whose lowercase forms (std `str::to_lowercase`) differ at most in
/// `-` versus `:` normalize to the same address.
pub proof fn lemma_mac_ignores_case_and_separators(a: Seq<char>, b: Seq<char>)
    requires
        same_up_to_separators(lowercase_of(a), lowercase_of(b)),
    ensures
        normalized_mac(a) == normalized_mac(b),
{
    let x = lowercase_of(a);
    let y = lowercase_of(b);
    assert(dashes_to_colons(x) =~= dashes_to_colons(y)) by {
        assert forall|i: int| 0 <= i < x.len() implies dashes_to_colons(x)[i] == dashes_to_colons(y)[i] by {
            assert(x[i] == y[i] || ((x[i] == '-' || x[i] == ':') && (y[i] == '-' || y[i] == ':')));
        }
    }
}

/// Normalizing a normalized address changes nothing, where lowercasing
/// leaves the text unchanged.
pub proof fn lemma_mac_normalization_idempotent(raw: Seq<char>)
    requires
        lowercase_of(normalized_mac(raw)) == normalized_mac(raw),
    ensures
        normalized_mac(normalized_mac(raw)) == normalized_mac(raw),
{
    let n = normalized_mac(raw);
    assert(dashes_to_colons(n) =~= n);
    assert(!is_bare_hex(n)) by {
        let t = dashes_to_colons(lowercase_of(raw));
        if is_bare_hex(t) {
            assert(n.len() == 17);
        } else {
            assert(n == t);
        }
    }
}

/// A normalized MAC address holds no dash.
pub proof fn lemma_normalized_mac_has_no_dash(raw: Seq<char>)
    ensures
        forall|i: int| 0 <= i < normalized_mac(raw).len() ==> normalized_mac(raw)[i] != '-',
{
    let t = dashes_to_colons(lowercase_of(raw));
    if is_bare_hex(t) {
        assert forall|i: int| 0 <= i < 17 implies colon_pairs(t)[i] != '-' by {
            assert(t[0] != '-' && t[1] != '-' && t[2] != '-' && t[3] != '-' && t[4] != '-' && t[5] != '-');
            assert(t[6] != '-' && t[7] != '-' && t[8] != '-' && t[9] != '-' && t[10] != '-' && t[11] != '-');
        }
    }
}

impl std::str::FromStr for EntityId {
    type Err = std::convert::Infallible;

    fn from_str(s: &str) -> (r: Result<Self, Self::Err>)
        ensures
            r matches Ok(id) && id@ == id_from_text(s@),
    {
        Ok(EntityId::from_text(s))
    }
}

impl std::str::FromStr for MacAddress {
    type Err = std::convert::Infallible;

    fn from_str(s: &str) -> (r: Result<Self, Self::Err>)
        ensures
            r matches Ok(m) && m@ == normalized_mac(s@),
    {
        Ok(MacAddress::new(s))
    }
}

} // verus!
