//! The data store: one entity collection per entity type, bulk refresh
//! application and single-entity lookups.

use std::sync::Arc;

use vstd::prelude::*;

use crate::collection::EntityCollection;
use crate::entity_id::{id_text, EntityId, EntityIdView, MacAddress};
use crate::model::{
    AclRule, Client, Device, DnsPolicy, Event, FirewallPolicy, FirewallZone, Network, Site,
    TrafficMatchingList, Voucher, WifiBroadcast,
};
use crate::clock::now_millis;
use crate::text::{decimal, string_from_chars, str_eq};

verus! {

// ── Keyed item lists ────────────────────────────────────────────────

/// A list of `(key, id, entity)` items, by views.
pub open spec fn keyed_view<T>(items: Seq<(String, EntityId, T)>) -> Seq<(Seq<char>, EntityIdView, T)> {
    items.map_values(|x: (String, EntityId, T)| (x.0@, x.1@, x.2))
}

/// Entities by key for an item list; a later item wins over an earlier
/// one with the same key.
pub open spec fn items_map<T>(items: Seq<(Seq<char>, EntityIdView, T)>) -> Map<Seq<char>, T>
    decreases items.len(),
{
    if items.len() == 0 {
        Map::empty()
    } else {
        items_map(items.drop_last()).insert(items.last().0, items.last().2)
    }
}

/// Ids by key for an item list; a later item wins.
pub open spec fn items_ids<T>(items: Seq<(Seq<char>, EntityIdView, T)>) -> Map<Seq<char>, EntityIdView>
    decreases items.len(),
{
    if items.len() == 0 {
        Map::empty()
    } else {
        items_ids(items.drop_last()).insert(items.last().0, items.last().1)
    }
}

proof fn lemma_items_dom<T>(items: Seq<(Seq<char>, EntityIdView, T)>)
    ensures
        items_ids(items).dom() == items_map(items).dom(),
        forall|k: Seq<char>| #[trigger] items_map(items).dom().contains(k) <==> exists|i: int|
            0 <= i < items.len() && #[trigger] items[i].0 == k,
    decreases items.len(),
{
    if items.len() > 0 {
        let t = items.drop_last();
        lemma_items_dom(t);
        assert forall|k: Seq<char>| #[trigger] items_map(items).dom().contains(k) <==> exists|i: int|
            0 <= i < items.len() && #[trigger] items[i].0 == k by {
            if items_map(items).dom().contains(k) && k != items.last().0 {
                let j = choose|j: int| 0 <= j < t.len() && #[trigger] t[j].0 == k;
                assert(items[j] == t[j]);
            }
            if exists|i: int| 0 <= i < items.len() && #[trigger] items[i].0 == k {
                let j = choose|j: int| 0 <= j < items.len() && #[trigger] items[j].0 == k;
                if j < items.len() - 1 {
                    assert(t[j] == items[j]);
                }
            }
        }
        assert(items_ids(items).dom() =~= items_map(items).dom());
    }
}

/// Whether a key list holds a text.
fn holds_key(keys: &Vec<String>, k: &str) -> (r: bool)
    ensures
        r == exists|i: int| 0 <= i < keys.len() && #[trigger] keys@[i]@ == k@,
{
    let mut i: usize = 0;
    while i < keys.len()
        invariant
            i <= keys.len(),
            forall|j: int| 0 <= j < i ==> #[trigger] keys@[j]@ != k@,
        decreases keys.len() - i,
    {
        if str_eq(keys[i].as_str(), k) {
            return true;
        }
        i = i + 1;
    }
    false
}

/// The items of a vector, in reverse order (so that popping yields them
/// in their given order).
fn reversed<X>(v: Vec<X>) -> (r: Vec<X>)
    ensures
        r@ == v@.reverse(),
{
    let mut v = v;
    let ghost orig = v@;
    let mut r: Vec<X> = Vec::new();
    while v.len() > 0
        invariant
            v@ == orig.subrange(0, v@.len() as int),
            r@ == orig.subrange(v@.len() as int, orig.len() as int).reverse(),
            v@.len() <= orig.len(),
        decreases v.len(),
    {
        let ghost n = v@.len();
        let x = v.pop().unwrap();
        r.push(x);
        assert(r@ =~= orig.subrange(n - 1, orig.len() as int).reverse());
    }
    assert(r@ =~= orig.reverse());
    r
}

/// Upsert all incoming items, then remove every stored key that is not
/// among them. Afterwards the collection holds exactly the incoming items
/// (the last one wins among items with the same key), without an empty
/// state in between.
pub fn upsert_and_prune<T>(collection: &mut EntityCollection<T>, items: Vec<(String, EntityId, T)>)
    requires
        old(collection).wf(),
    ensures
        final(collection).wf(),
        final(collection).by_key() == items_map(keyed_view(items@)),
        final(collection).key_index() == items_ids(keyed_view(items@)),
{
    let ghost all = keyed_view(items@);
    let ghost before = collection.by_key();
    let ghost before_ids = collection.key_index();
    let mut pending = reversed(items);
    let mut incoming: Vec<String> = Vec::new();
    let ghost mut done: Seq<(Seq<char>, EntityIdView, T)> = Seq::empty();
    while pending.len() > 0
        invariant
            collection.wf(),
            done.len() + pending@.len() == all.len(),
            done == all.subrange(0, done.len() as int),
            keyed_view(pending@.reverse()) == all.subrange(done.len() as int, all.len() as int),
            incoming.len() == done.len(),
            forall|j: int| 0 <= j < done.len() ==> #[trigger] incoming@[j]@ == done[j].0,
            collection.by_key() == before.union_prefer_right(items_map(done)),
            collection.key_index() == before_ids.union_prefer_right(items_ids(done)),
        decreases pending.len(),
    {
        let ghost rest = pending@.reverse();
        let (key, id, entity) = pending.pop().unwrap();
        proof {
            assert(rest[0] == (key, id, entity));
            assert(keyed_view(rest)[0] == all[done.len() as int]);
            assert(pending@.reverse() =~= rest.drop_first());
            assert(keyed_view(rest.drop_first()) =~= keyed_view(rest).drop_first());
            assert(keyed_view(pending@.reverse()) =~= all.subrange(done.len() + 1 as int, all.len() as int));
        }
        let ghost kv = (key@, id@, entity);
        incoming.push(key.clone());
        collection.upsert(key, id, entity);
        proof {
            let nd = done.push(kv);
            assert(nd.drop_last() == done);
            assert(nd =~= all.subrange(0, nd.len() as int));
            assert(collection.by_key() =~= before.union_prefer_right(items_map(nd)));
            assert(collection.key_index() =~= before_ids.union_prefer_right(items_ids(nd)));
            done = nd;
        }
    }
    proof {
        assert(done =~= all);
        lemma_items_dom(all);
        collection.lemma_key_order();
    }
    let ghost merged = collection.by_key();
    let ghost merged_ids = collection.key_index();
    let existing = collection.keys();
    proof {
        collection.lemma_wf_indexes();
        let order = collection.key_order();
        assert forall|t: int| 0 <= t < existing.len() implies merged.dom().contains(#[trigger] existing@[t]@) by {
            assert(order[t] == existing@[t]@);
            assert(order.contains(order[t]));
        }
        assert forall|k: Seq<char>| merged.dom().contains(k) implies exists|t: int|
            0 <= t < existing.len() && #[trigger] existing@[t]@ == k by {
            assert(order.contains(k));
            let t = choose|t: int| 0 <= t < order.len() && order[t] == k;
            assert(existing@[t]@ == k);
        }
        assert forall|a: int, b: int| 0 <= a < b < existing.len() implies existing@[a]@ != existing@[b]@ by {
            assert(order[a] == existing@[a]@);
            assert(order[b] == existing@[b]@);
        }
    }
    let mut j: usize = 0;
    while j < existing.len()
        invariant
            collection.wf(),
            j <= existing.len(),
            existing.len() == merged.len(),
            merged.dom().finite(),
            forall|t: int| 0 <= t < existing.len() ==> merged.dom().contains(#[trigger] existing@[t]@),
            forall|a: int, b: int| 0 <= a < b < existing.len() ==> existing@[a]@ != existing@[b]@,
            forall|k: Seq<char>| merged.dom().contains(k) ==> exists|t: int|
                0 <= t < existing.len() && #[trigger] existing@[t]@ == k,
            incoming.len() == all.len(),
            forall|t: int| 0 <= t < all.len() ==> #[trigger] incoming@[t]@ == all[t].0,
            merged == before.union_prefer_right(items_map(all)),
            merged_ids == before_ids.union_prefer_right(items_ids(all)),
            forall|k: Seq<char>| #[trigger] collection.by_key().dom().contains(k) <==> (merged.dom().contains(k)
                && (items_map(all).dom().contains(k) || exists|t: int| j <= t < existing.len()
                    && #[trigger] existing@[t]@ == k)),
            forall|k: Seq<char>| #[trigger] collection.by_key().dom().contains(k) ==> collection.by_key()[k]
                == merged[k] && collection.key_index()[k] == merged_ids[k],
            collection.key_index().dom() == collection.by_key().dom(),
        decreases existing.len() - j,
    {
        let k = &existing[j];
        let keep = holds_key(&incoming, k.as_str());
        proof {
            lemma_items_dom(all);
            if keep {
                let t = choose|t: int| 0 <= t < incoming.len() && #[trigger] incoming@[t]@ == k@;
                assert(all[t].0 == k@);
            } else {
                if items_map(all).dom().contains(k@) {
                    let t = choose|t: int| 0 <= t < all.len() && #[trigger] all[t].0 == k@;
                    assert(incoming@[t]@ == k@);
                }
            }
        }
        if !keep {
            let ghost pre = collection.by_key();
            let ghost pre_ids = collection.key_index();
            let _ = collection.remove(k.as_str());
            proof {
                assert forall|k2: Seq<char>| #[trigger] collection.by_key().dom().contains(k2) <==> (merged.dom().contains(k2)
                    && (items_map(all).dom().contains(k2) || exists|t: int| j + 1 <= t < existing.len()
                        && #[trigger] existing@[t]@ == k2)) by {
                    if k2 != existing@[j as int]@ && exists|t: int| j <= t < existing.len()
                        && #[trigger] existing@[t]@ == k2 {
                        let t = choose|t: int| j <= t < existing.len() && #[trigger] existing@[t]@ == k2;
                        assert(t != j);
                    }
                    if k2 == existing@[j as int]@ {
                        if exists|t: int| j + 1 <= t < existing.len() && #[trigger] existing@[t]@ == k2 {
                            let t = choose|t: int| j + 1 <= t < existing.len() && #[trigger] existing@[t]@ == k2;
                            assert(existing@[t]@ != existing@[j as int]@);
                        }
                    }
                }
            }
        } else {
            proof {
                assert forall|k2: Seq<char>| #[trigger] collection.by_key().dom().contains(k2) <==> (merged.dom().contains(k2)
                    && (items_map(all).dom().contains(k2) || exists|t: int| j + 1 <= t < existing.len()
                        && #[trigger] existing@[t]@ == k2)) by {
                    if exists|t: int| j <= t < existing.len() && #[trigger] existing@[t]@ == k2 {
                        let t = choose|t: int| j <= t < existing.len() && #[trigger] existing@[t]@ == k2;
                        if t == j {
                            assert(items_map(all).dom().contains(k2));
                        }
                    }
                }
            }
        }
        j = j + 1;
    }
    proof {
        lemma_items_dom(all);
        assert forall|k: Seq<char>| #[trigger] collection.by_key().dom().contains(k) <==> items_map(all).dom().contains(k) by {
            if items_map(all).dom().contains(k) {
                assert(merged.dom().contains(k));
            }
        }
        assert(collection.by_key() =~= items_map(all));
        assert(collection.key_index() =~= items_ids(all));
    }
}

// ── Store keys ──────────────────────────────────────────────────────

/// The decimal text of a signed integer (what `Display` writes for `i64`).
pub open spec fn signed_decimal(n: int) -> Seq<char> {
    if n < 0 { seq!['-'] + decimal((-n) as nat) } else { decimal(n as nat) }
}

/// The text of a signed 64-bit integer.
pub fn i64_to_string(n: i64) -> (s: String)
    ensures
        s@ == signed_decimal(n as int),
{
    if n < 0 {
        let m: u64 = (0i128 - (n as i128)) as u64;
        let mut v: Vec<char> = Vec::new();
        v.push('-');
        let d = crate::text::decimal_chars(m);
        let mut i: usize = 0;
        while i < d.len()
            invariant
                i <= d.len(),
                v@ == seq!['-'] + d@.subrange(0, i as int),
            decreases d.len() - i,
        {
            v.push(d[i]);
            i = i + 1;
        }
        assert(d@.subrange(0, d@.len() as int) == d@);
        string_from_chars(&v)
    } else {
        crate::text::u64_to_string(n as u64)
    }
}

/// A prefix followed by the display text of an id (the store key of most
/// entity kinds, e.g. `net:<id>`).
pub fn prefixed_key(prefix: &str, id: &EntityId) -> (k: String)
    ensures
        k@ == prefix@ + id_text(id@),
{
    let t = id.to_string();
    crate::text::concat(prefix, t.as_str())
}

/// How an entity is filed in its collection: a primary key and an id.
pub trait StoreKeyed: Sized {
    /// The primary key the entity is stored under.
    spec fn key_spec(&self) -> Seq<char>;

    /// The id the entity is indexed by.
    spec fn id_spec(&self) -> EntityIdView;

    fn store_key(&self) -> (k: String)
        ensures
            k@ == self.key_spec();

    fn store_id(&self) -> (i: EntityId)
        ensures
            i@ == self.id_spec();
}

impl StoreKeyed for Device {
    /// Devices are keyed by MAC address.
    open spec fn key_spec(&self) -> Seq<char> {
        self.mac@
    }

    open spec fn id_spec(&self) -> EntityIdView {
        self.id@
    }

    fn store_key(&self) -> (k: String) {
        self.mac.to_string()
    }

    fn store_id(&self) -> (i: EntityId) {
        self.id.duplicate()
    }
}

impl StoreKeyed for Client {
    /// Clients are keyed by MAC address.
    open spec fn key_spec(&self) -> Seq<char> {
        self.mac@
    }

    open spec fn id_spec(&self) -> EntityIdView {
        self.id@
    }

    fn store_key(&self) -> (k: String) {
        self.mac.to_string()
    }

    fn store_id(&self) -> (i: EntityId) {
        self.id.duplicate()
    }
}

impl StoreKeyed for Network {
    /// Keyed `net:<id>`.
    open spec fn key_spec(&self) -> Seq<char> {
        "net:"@ + id_text(self.id@)
    }

    open spec fn id_spec(&self) -> EntityIdView {
        self.id@
    }

    fn store_key(&self) -> (k: String) {
        prefixed_key("net:", &self.id)
    }

    fn store_id(&self) -> (i: EntityId) {
        self.id.duplicate()
    }
}

impl StoreKeyed for WifiBroadcast {
    /// Keyed `wifi:<id>`.
    open spec fn key_spec(&self) -> Seq<char> {
        "wifi:"@ + id_text(self.id@)
    }

    open spec fn id_spec(&self) -> EntityIdView {
        self.id@
    }

    fn store_key(&self) -> (k: String) {
        prefixed_key("wifi:", &self.id)
    }

    fn store_id(&self) -> (i: EntityId) {
        self.id.duplicate()
    }
}

impl StoreKeyed for FirewallPolicy {
    /// Keyed `fwp:<id>`.
    open spec fn key_spec(&self) -> Seq<char> {
        "fwp:"@ + id_text(self.id@)
    }

    open spec fn id_spec(&self) -> EntityIdView {
        self.id@
    }

    fn store_key(&self) -> (k: String) {
        prefixed_key("fwp:", &self.id)
    }

    fn store_id(&self) -> (i: EntityId) {
        self.id.duplicate()
    }
}

impl StoreKeyed for FirewallZone {
    /// Keyed `fwz:<id>`.
    open spec fn key_spec(&self) -> Seq<char> {
        "fwz:"@ + id_text(self.id@)
    }

    open spec fn id_spec(&self) -> EntityIdView {
        self.id@
    }

    fn store_key(&self) -> (k: String) {
        prefixed_key("fwz:", &self.id)
    }

    fn store_id(&self) -> (i: EntityId) {
        self.id.duplicate()
    }
}

impl StoreKeyed for AclRule {
    /// Keyed `acl:<id>`.
    open spec fn key_spec(&self) -> Seq<char> {
        "acl:"@ + id_text(self.id@)
    }

    open spec fn id_spec(&self) -> EntityIdView {
        self.id@
    }

    fn store_key(&self) -> (k: String) {
        prefixed_key("acl:", &self.id)
    }

    fn store_id(&self) -> (i: EntityId) {
        self.id.duplicate()
    }
}

impl StoreKeyed for DnsPolicy {
    /// Keyed `dns:<id>`.
    open spec fn key_spec(&self) -> Seq<char> {
        "dns:"@ + id_text(self.id@)
    }

    open spec fn id_spec(&self) -> EntityIdView {
        self.id@
    }

    fn store_key(&self) -> (k: String) {
        prefixed_key("dns:", &self.id)
    }

    fn store_id(&self) -> (i: EntityId) {
        self.id.duplicate()
    }
}

impl StoreKeyed for Voucher {
    /// Keyed `vch:<id>`.
    open spec fn key_spec(&self) -> Seq<char> {
        "vch:"@ + id_text(self.id@)
    }

    open spec fn id_spec(&self) -> EntityIdView {
        self.id@
    }

    fn store_key(&self) -> (k: String) {
        prefixed_key("vch:", &self.id)
    }

    fn store_id(&self) -> (i: EntityId) {
        self.id.duplicate()
    }
}

impl StoreKeyed for Site {
    /// Keyed `site:<id>`.
    open spec fn key_spec(&self) -> Seq<char> {
        "site:"@ + id_text(self.id@)
    }

    open spec fn id_spec(&self) -> EntityIdView {
        self.id@
    }

    fn store_key(&self) -> (k: String) {
        prefixed_key("site:", &self.id)
    }

    fn store_id(&self) -> (i: EntityId) {
        self.id.duplicate()
    }
}

impl StoreKeyed for TrafficMatchingList {
    /// Keyed `tml:<id>`.
    open spec fn key_spec(&self) -> Seq<char> {
        "tml:"@ + id_text(self.id@)
    }

    open spec fn id_spec(&self) -> EntityIdView {
        self.id@
    }

    fn store_key(&self) -> (k: String) {
        prefixed_key("tml:", &self.id)
    }

    fn store_id(&self) -> (i: EntityId) {
        self.id.duplicate()
    }
}

/// The store key of an event: the display text of its id, or
/// `evt:<timestamp millis>` for an event without id.
pub open spec fn event_key(e: Event) -> Seq<char> {
    match e.id {
        Some(id) => id_text(id@),
        None => "evt:"@ + signed_decimal(e.timestamp_millis as int),
    }
}

impl StoreKeyed for Event {
    open spec fn key_spec(&self) -> Seq<char> {
        event_key(*self)
    }

    /// An event without id is indexed by a legacy id holding its key.
    open spec fn id_spec(&self) -> EntityIdView {
        match self.id {
            Some(id) => id@,
            None => EntityIdView::Legacy(event_key(*self)),
        }
    }

    fn store_key(&self) -> (k: String) {
        match &self.id {
            Some(id) => id.to_string(),
            None => {
                let t = i64_to_string(self.timestamp_millis);
                crate::text::concat("evt:", t.as_str())
            },
        }
    }

    fn store_id(&self) -> (i: EntityId) {
        match &self.id {
            Some(id) => id.duplicate(),
            None => EntityId::Legacy(self.store_key()),
        }
    }
}

/// The `(key, id, entity)` items for a list of entities.
pub open spec fn keyed_spec<T: StoreKeyed>(s: Seq<T>) -> Seq<(Seq<char>, EntityIdView, T)> {
    s.map_values(|t: T| (t.key_spec(), t.id_spec(), t))
}

/// Pairs every entity with its store key and id.
pub fn keyed_items<T: StoreKeyed>(v: Vec<T>) -> (r: Vec<(String, EntityId, T)>)
    ensures
        keyed_view(r@) == keyed_spec(v@),
{
    let ghost orig = v@;
    let mut pending = reversed(v);
    let mut r: Vec<(String, EntityId, T)> = Vec::new();
    while pending.len() > 0
        invariant
            r.len() + pending.len() == orig.len(),
            pending@.reverse() == orig.subrange(r.len() as int, orig.len() as int),
            keyed_view(r@) == keyed_spec(orig.subrange(0, r.len() as int)),
        decreases pending.len(),
    {
        let ghost rest = pending@.reverse();
        let ghost n = r.len();
        let t = pending.pop().unwrap();
        proof {
            assert(rest[0] == t);
            assert(pending@.reverse() =~= rest.drop_first());
            assert(t == orig[n as int]);
        }
        let k = t.store_key();
        let i = t.store_id();
        let ghost ks = t.key_spec();
        let ghost is = t.id_spec();
        let ghost tv = t;
        let ghost old_r = r@;
        r.push((k, i, t));
        proof {
            assert(r@ == old_r.push((k, i, tv)));
            assert(keyed_view(r@)[n as int] == (ks, is, tv));
            assert(keyed_view(r@).drop_last() =~= keyed_view(old_r));
            let full = keyed_spec(orig.subrange(0, r.len() as int));
            let part = keyed_spec(orig.subrange(0, n as int));
            assert forall|j: int| 0 <= j < r.len() implies #[trigger] keyed_view(r@)[j] == full[j] by {
                if j < n {
                    assert(keyed_view(r@)[j] == keyed_view(old_r)[j]);
                    assert(part[j] == full[j]);
                } else {
                    assert(orig.subrange(0, r.len() as int)[j] == tv);
                }
            }
            assert(keyed_view(r@) =~= full);
        }
    }
    assert(orig.subrange(0, orig.len() as int) == orig);
    r
}

// ── DataStore ───────────────────────────────────────────────────────

/// All collections fetched during one Integration API refresh cycle.
pub struct RefreshSnapshot {
    pub devices: Vec<Device>,
    pub clients: Vec<Client>,
    pub networks: Vec<Network>,
    pub wifi: Vec<WifiBroadcast>,
    pub policies: Vec<FirewallPolicy>,
    pub zones: Vec<FirewallZone>,
    pub acls: Vec<AclRule>,
    pub dns: Vec<DnsPolicy>,
    pub vouchers: Vec<Voucher>,
    pub sites: Vec<Site>,
    pub events: Vec<Event>,
    pub traffic_matching_lists: Vec<TrafficMatchingList>,
}

/// Central store for all UniFi domain entities.
pub struct DataStore {
    pub devices: EntityCollection<Device>,
    pub clients: EntityCollection<Client>,
    pub networks: EntityCollection<Network>,
    pub wifi_broadcasts: EntityCollection<WifiBroadcast>,
    pub firewall_policies: EntityCollection<FirewallPolicy>,
    pub firewall_zones: EntityCollection<FirewallZone>,
    pub acl_rules: EntityCollection<AclRule>,
    pub dns_policies: EntityCollection<DnsPolicy>,
    pub vouchers: EntityCollection<Voucher>,
    pub sites: EntityCollection<Site>,
    pub events: EntityCollection<Event>,
    pub traffic_matching_lists: EntityCollection<TrafficMatchingList>,
    /// When the last full refresh was applied (milliseconds since the epoch).
    pub last_full_refresh: Option<i64>,
    /// When the last WebSocket event arrived (milliseconds since the epoch).
    pub last_ws_event: Option<i64>,
}

/// A collection holds exactly the given entities, filed by key.
pub open spec fn holds_exactly<T: StoreKeyed>(c: EntityCollection<T>, s: Seq<T>) -> bool {
    &&& c.wf()
    &&& c.by_key() == items_map(keyed_spec(s))
    &&& c.key_index() == items_ids(keyed_spec(s))
}

proof fn lemma_items_map_last_wins<T>(items: Seq<(Seq<char>, EntityIdView, T)>, i: int)
    requires
        0 <= i < items.len(),
        forall|j: int| i < j < items.len() ==> #[trigger] items[j].0 != items[i].0,
    ensures
        items_map(items).dom().contains(items[i].0),
        items_map(items)[items[i].0] == items[i].2,
        items_ids(items)[items[i].0] == items[i].1,
    decreases items.len(),
{
    if i < items.len() - 1 {
        let t = items.drop_last();
        assert forall|j: int| i < j < t.len() implies #[trigger] t[j].0 != t[i].0 by {
            assert(t[j] == items[j]);
        }
        lemma_items_map_last_wins(t, i);
        assert(items[items.len() - 1].0 != items[i].0);
    }
}

/// A refresh is read back: after it, each entity of the snapshot is found
/// under its store key (with its id in the key index) unless a later
/// entity of the snapshot has the same key, and a key is found only if
/// some entity of the snapshot has it.
pub proof fn lemma_refresh_read_back<T: StoreKeyed>(c: EntityCollection<T>, s: Seq<T>, i: int, k: Seq<char>)
    requires
        holds_exactly(c, s),
        0 <= i < s.len(),
        forall|j: int| i < j < s.len() ==> #[trigger] s[j].key_spec() != s[i].key_spec(),
    ensures
        c.by_key().dom().contains(s[i].key_spec()),
        c.by_key()[s[i].key_spec()] == s[i],
        c.key_index()[s[i].key_spec()] == s[i].id_spec(),
        c.by_key().dom().contains(k) ==> exists|j: int| 0 <= j < s.len() && #[trigger] s[j].key_spec() == k,
{
    let items = keyed_spec(s);
    assert forall|j: int| i < j < items.len() implies #[trigger] items[j].0 != items[i].0 by {
        assert(items[j].0 == s[j].key_spec());
    }
    lemma_items_map_last_wins(items, i);
    lemma_items_dom(items);
    if c.by_key().dom().contains(k) {
        let j = choose|j: int| 0 <= j < items.len() && #[trigger] items[j].0 == k;
        assert(s[j].key_spec() == k);
    }
}

impl DataStore {
    /// Every collection is well formed.
    pub open spec fn wf(self) -> bool {
        &&& self.devices.wf()
        &&& self.clients.wf()
        &&& self.networks.wf()
        &&& self.wifi_broadcasts.wf()
        &&& self.firewall_policies.wf()
        &&& self.firewall_zones.wf()
        &&& self.acl_rules.wf()
        &&& self.dns_policies.wf()
        &&& self.vouchers.wf()
        &&& self.sites.wf()
        &&& self.events.wf()
        &&& self.traffic_matching_lists.wf()
    }

    /// An empty store that has never been refreshed.
    pub fn new() -> (s: Self)
        ensures
            s.wf(),
            s.devices.by_key().len() == 0,
            s.clients.by_key().len() == 0,
            s.networks.by_key().len() == 0,
            s.wifi_broadcasts.by_key().len() == 0,
            s.firewall_policies.by_key().len() == 0,
            s.firewall_zones.by_key().len() == 0,
            s.acl_rules.by_key().len() == 0,
            s.dns_policies.by_key().len() == 0,
            s.vouchers.by_key().len() == 0,
            s.sites.by_key().len() == 0,
            s.events.by_key().len() == 0,
            s.traffic_matching_lists.by_key().len() == 0,
            s.last_full_refresh is None,
            s.last_ws_event is None,
    {
        DataStore {
            devices: EntityCollection::new(),
            clients: EntityCollection::new(),
            networks: EntityCollection::new(),
            wifi_broadcasts: EntityCollection::new(),
            firewall_policies: EntityCollection::new(),
            firewall_zones: EntityCollection::new(),
            acl_rules: EntityCollection::new(),
            dns_policies: EntityCollection::new(),
            vouchers: EntityCollection::new(),
            sites: EntityCollection::new(),
            events: EntityCollection::new(),
            traffic_matching_lists: EntityCollection::new(),
            last_full_refresh: None,
            last_ws_event: None,
        }
    }

    /// Apply a full Integration API refresh taken at `now_millis`: every
    /// collection ends up holding exactly the entities of the snapshot
    /// (upsert, then prune of keys not in the snapshot), and the refresh
    /// time is recorded.
    pub fn apply_integration_snapshot_at(&mut self, snap: RefreshSnapshot, now_millis: i64)
        requires
            old(self).wf(),
        ensures
            final(self).wf(),
            holds_exactly(final(self).devices, snap.devices@),
            holds_exactly(final(self).clients, snap.clients@),
            holds_exactly(final(self).networks, snap.networks@),
            holds_exactly(final(self).wifi_broadcasts, snap.wifi@),
            holds_exactly(final(self).firewall_policies, snap.policies@),
            holds_exactly(final(self).firewall_zones, snap.zones@),
            holds_exactly(final(self).acl_rules, snap.acls@),
            holds_exactly(final(self).dns_policies, snap.dns@),
            holds_exactly(final(self).vouchers, snap.vouchers@),
            holds_exactly(final(self).sites, snap.sites@),
            holds_exactly(final(self).events, snap.events@),
            holds_exactly(final(self).traffic_matching_lists, snap.traffic_matching_lists@),
            final(self).last_full_refresh == Some(now_millis),
            final(self).last_ws_event == old(self).last_ws_event,
    {
        let RefreshSnapshot {
            devices, clients, networks, wifi, policies, zones, acls, dns, vouchers, sites,
            events, traffic_matching_lists,
        } = snap;
        upsert_and_prune(&mut self.devices, keyed_items(devices));
        upsert_and_prune(&mut self.clients, keyed_items(clients));
        upsert_and_prune(&mut self.networks, keyed_items(networks));
        upsert_and_prune(&mut self.wifi_broadcasts, keyed_items(wifi));
        upsert_and_prune(&mut self.firewall_policies, keyed_items(policies));
        upsert_and_prune(&mut self.firewall_zones, keyed_items(zones));
        upsert_and_prune(&mut self.acl_rules, keyed_items(acls));
        upsert_and_prune(&mut self.dns_policies, keyed_items(dns));
        upsert_and_prune(&mut self.vouchers, keyed_items(vouchers));
        upsert_and_prune(&mut self.sites, keyed_items(sites));
        upsert_and_prune(&mut self.events, keyed_items(events));
        upsert_and_prune(&mut self.traffic_matching_lists, keyed_items(traffic_matching_lists));
        self.last_full_refresh = Some(now_millis);
    }

    /// Apply a full Integration API refresh (see
    /// `apply_integration_snapshot_at`), stamped with the current time.
    pub fn apply_integration_snapshot(&mut self, snap: RefreshSnapshot)
        requires
            old(self).wf(),
        ensures
            final(self).wf(),
            holds_exactly(final(self).devices, snap.devices@),
            holds_exactly(final(self).clients, snap.clients@),
            holds_exactly(final(self).networks, snap.networks@),
            holds_exactly(final(self).wifi_broadcasts, snap.wifi@),
            holds_exactly(final(self).firewall_policies, snap.policies@),
            holds_exactly(final(self).firewall_zones, snap.zones@),
            holds_exactly(final(self).acl_rules, snap.acls@),
            holds_exactly(final(self).dns_policies, snap.dns@),
            holds_exactly(final(self).vouchers, snap.vouchers@),
            holds_exactly(final(self).sites, snap.sites@),
            holds_exactly(final(self).events, snap.events@),
            holds_exactly(final(self).traffic_matching_lists, snap.traffic_matching_lists@),
            final(self).last_full_refresh is Some,
            final(self).last_ws_event == old(self).last_ws_event,
    {
        let now = now_millis();
        self.apply_integration_snapshot_at(snap, now);
    }

    /// Apply a legacy-only refresh taken at `now_millis`: every collection
    /// but the events ends up holding exactly the entities of the snapshot,
    /// and the refresh time is recorded. Legacy events are broadcast to
    /// subscribers, never stored, so the stored events stay as they were.
    pub fn apply_legacy_refresh_at(&mut self, snap: RefreshSnapshot, now_millis: i64)
        requires
            old(self).wf(),
        ensures
            final(self).wf(),
            holds_exactly(final(self).devices, snap.devices@),
            holds_exactly(final(self).clients, snap.clients@),
            holds_exactly(final(self).networks, snap.networks@),
            holds_exactly(final(self).wifi_broadcasts, snap.wifi@),
            holds_exactly(final(self).firewall_policies, snap.policies@),
            holds_exactly(final(self).firewall_zones, snap.zones@),
            holds_exactly(final(self).acl_rules, snap.acls@),
            holds_exactly(final(self).dns_policies, snap.dns@),
            holds_exactly(final(self).vouchers, snap.vouchers@),
            holds_exactly(final(self).sites, snap.sites@),
            final(self).events == old(self).events,
            holds_exactly(final(self).traffic_matching_lists, snap.traffic_matching_lists@),
            final(self).last_full_refresh == Some(now_millis),
            final(self).last_ws_event == old(self).last_ws_event,
    {
        let RefreshSnapshot {
            devices, clients, networks, wifi, policies, zones, acls, dns, vouchers, sites,
            events: _, traffic_matching_lists,
        } = snap;
        upsert_and_prune(&mut self.devices, keyed_items(devices));
        upsert_and_prune(&mut self.clients, keyed_items(clients));
        upsert_and_prune(&mut self.networks, keyed_items(networks));
        upsert_and_prune(&mut self.wifi_broadcasts, keyed_items(wifi));
        upsert_and_prune(&mut self.firewall_policies, keyed_items(policies));
        upsert_and_prune(&mut self.firewall_zones, keyed_items(zones));
        upsert_and_prune(&mut self.acl_rules, keyed_items(acls));
        upsert_and_prune(&mut self.dns_policies, keyed_items(dns));
        upsert_and_prune(&mut self.vouchers, keyed_items(vouchers));
        upsert_and_prune(&mut self.sites, keyed_items(sites));
        upsert_and_prune(&mut self.traffic_matching_lists, keyed_items(traffic_matching_lists));
        self.last_full_refresh = Some(now_millis);
    }

    /// Apply a legacy-only refresh (see `apply_legacy_refresh_at`), stamped
    /// with the current time.
    pub fn apply_legacy_refresh(&mut self, snap: RefreshSnapshot)
        requires
            old(self).wf(),
        ensures
            final(self).wf(),
            holds_exactly(final(self).devices, snap.devices@),
            holds_exactly(final(self).clients, snap.clients@),
            holds_exactly(final(self).networks, snap.networks@),
            holds_exactly(final(self).wifi_broadcasts, snap.wifi@),
            holds_exactly(final(self).firewall_policies, snap.policies@),
            holds_exactly(final(self).firewall_zones, snap.zones@),
            holds_exactly(final(self).acl_rules, snap.acls@),
            holds_exactly(final(self).dns_policies, snap.dns@),
            holds_exactly(final(self).vouchers, snap.vouchers@),
            holds_exactly(final(self).sites, snap.sites@),
            final(self).events == old(self).events,
            holds_exactly(final(self).traffic_matching_lists, snap.traffic_matching_lists@),
            final(self).last_full_refresh is Some,
            final(self).last_ws_event == old(self).last_ws_event,
    {
        let now = now_millis();
        self.apply_legacy_refresh_at(snap, now);
    }

    /// Apply legacy-only data as a supplement: a device or client is added
    /// only when its MAC is not yet stored (Integration data wins).
    /// Events are not stored here.
    pub fn apply_legacy_snapshot(&mut self, devices: Vec<Device>, clients: Vec<Client>, events: Vec<Event>)
        requires
            old(self).wf(),
        ensures
            final(self).wf(),
            final(self).devices.by_key() == fill_missing(old(self).devices.by_key(), keyed_spec(devices@)),
            final(self).devices.key_index() == fill_missing_keys(
                old(self).devices.key_index(),
                keyed_spec(devices@),
            ),
            final(self).devices.id_index() == fill_missing_ids(
                old(self).devices.id_index(),
                old(self).devices.key_index(),
                keyed_spec(devices@),
            ),
            final(self).clients.by_key() == fill_missing(old(self).clients.by_key(), keyed_spec(clients@)),
            final(self).clients.key_index() == fill_missing_keys(
                old(self).clients.key_index(),
                keyed_spec(clients@),
            ),
            final(self).clients.id_index() == fill_missing_ids(
                old(self).clients.id_index(),
                old(self).clients.key_index(),
                keyed_spec(clients@),
            ),
            final(self).networks == old(self).networks,
            final(self).wifi_broadcasts == old(self).wifi_broadcasts,
            final(self).firewall_policies == old(self).firewall_policies,
            final(self).firewall_zones == old(self).firewall_zones,
            final(self).acl_rules == old(self).acl_rules,
            final(self).dns_policies == old(self).dns_policies,
            final(self).vouchers == old(self).vouchers,
            final(self).sites == old(self).sites,
            final(self).events == old(self).events,
            final(self).traffic_matching_lists == old(self).traffic_matching_lists,
            final(self).last_full_refresh == old(self).last_full_refresh,
            final(self).last_ws_event == old(self).last_ws_event,
    {
        add_missing(&mut self.devices, keyed_items(devices));
        add_missing(&mut self.clients, keyed_items(clients));
    }

    /// The device stored under a MAC address.
    pub fn device_by_mac(&self, mac: &MacAddress) -> (r: Option<Arc<Device>>)
        requires
            self.wf(),
        ensures
            match r {
                Some(d) => self.devices.by_key().dom().contains(mac@) && *d == self.devices.by_key()[mac@],
                None => !self.devices.by_key().dom().contains(mac@),
            },
    {
        self.devices.get_by_key(mac.as_str())
    }

    /// The device indexed under an id.
    pub fn device_by_id(&self, id: &EntityId) -> (r: Option<Arc<Device>>)
        requires
            self.wf(),
        ensures
            match r {
                Some(d) => self.devices.id_index().dom().contains(id@)
                    && *d == self.devices.by_key()[self.devices.id_index()[id@]],
                None => !self.devices.id_index().dom().contains(id@),
            },
    {
        self.devices.get_by_id(id)
    }

    /// The client stored under a MAC address.
    pub fn client_by_mac(&self, mac: &MacAddress) -> (r: Option<Arc<Client>>)
        requires
            self.wf(),
        ensures
            match r {
                Some(c) => self.clients.by_key().dom().contains(mac@) && *c == self.clients.by_key()[mac@],
                None => !self.clients.by_key().dom().contains(mac@),
            },
    {
        self.clients.get_by_key(mac.as_str())
    }

    /// The client indexed under an id.
    pub fn client_by_id(&self, id: &EntityId) -> (r: Option<Arc<Client>>)
        requires
            self.wf(),
        ensures
            match r {
                Some(c) => self.clients.id_index().dom().contains(id@)
                    && *c == self.clients.by_key()[self.clients.id_index()[id@]],
                None => !self.clients.id_index().dom().contains(id@),
            },
    {
        self.clients.get_by_id(id)
    }

    /// The network indexed under an id.
    pub fn network_by_id(&self, id: &EntityId) -> (r: Option<Arc<Network>>)
        requires
            self.wf(),
        ensures
            match r {
                Some(n) => self.networks.id_index().dom().contains(id@)
                    && *n == self.networks.by_key()[self.networks.id_index()[id@]],
                None => !self.networks.id_index().dom().contains(id@),
            },
    {
        self.networks.get_by_id(id)
    }

    /// Number of stored devices.
    pub fn device_count(&self) -> (n: usize)
        requires
            self.wf(),
        ensures
            n == self.devices.by_key().len(),
    {
        self.devices.len()
    }

    /// Number of stored clients.
    pub fn client_count(&self) -> (n: usize)
        requires
            self.wf(),
        ensures
            n == self.clients.by_key().len(),
    {
        self.clients.len()
    }

    /// Number of stored networks.
    pub fn network_count(&self) -> (n: usize)
        requires
            self.wf(),
        ensures
            n == self.networks.by_key().len(),
    {
        self.networks.len()
    }

    /// How long ago the last full refresh happened, in milliseconds, as
    /// seen at `now_millis`; `None` if never refreshed.
    pub fn data_age_at(&self, now_millis: i64) -> (r: Option<i128>)
        ensures
            match self.last_full_refresh {
                Some(t) => r == Some((now_millis - t) as i128),
                None => r is None,
            },
    {
        match self.last_full_refresh {
            Some(t) => Some(now_millis as i128 - t as i128),
            None => None,
        }
    }

    /// How long ago the last full refresh happened, in milliseconds, as
    /// seen now; `None` if never refreshed.
    pub fn data_age(&self) -> (r: Option<i128>)
        ensures
            r is Some == self.last_full_refresh is Some,
    {
        let now = now_millis();
        self.data_age_at(now)
    }
}

/// The map after adding, in order, each item whose key is not yet present.
pub open spec fn fill_missing<T>(m: Map<Seq<char>, T>, items: Seq<(Seq<char>, EntityIdView, T)>) -> Map<Seq<char>, T>
    decreases items.len(),
{
    if items.len() == 0 {
        m
    } else {
        let prev = fill_missing(m, items.drop_last());
        if prev.dom().contains(items.last().0) {
            prev
        } else {
            prev.insert(items.last().0, items.last().2)
        }
    }
}

/// The key index after adding, in order, the id of each item whose key is
/// not yet present.
pub open spec fn fill_missing_keys<T>(
    keys: Map<Seq<char>, EntityIdView>,
    items: Seq<(Seq<char>, EntityIdView, T)>,
) -> Map<Seq<char>, EntityIdView>
    decreases items.len(),
{
    if items.len() == 0 {
        keys
    } else {
        let prev = fill_missing_keys(keys, items.drop_last());
        if prev.dom().contains(items.last().0) {
            prev
        } else {
            prev.insert(items.last().0, items.last().1)
        }
    }
}

/// The identity index after adding, in order, each item whose key is not
/// yet present (`keys` is the key index before the first addition): an
/// added item's id points at its key.
pub open spec fn fill_missing_ids<T>(
    ids: Map<EntityIdView, Seq<char>>,
    keys: Map<Seq<char>, EntityIdView>,
    items: Seq<(Seq<char>, EntityIdView, T)>,
) -> Map<EntityIdView, Seq<char>>
    decreases items.len(),
{
    if items.len() == 0 {
        ids
    } else {
        let prev = fill_missing_ids(ids, keys, items.drop_last());
        if fill_missing_keys(keys, items.drop_last()).dom().contains(items.last().0) {
            prev
        } else {
            prev.insert(items.last().1, items.last().0)
        }
    }
}

/// Supplementing never overrides: every key already held keeps its entity,
/// and every key of the supplement is held afterwards.
pub proof fn lemma_supplement_never_overrides<T>(
    m: Map<Seq<char>, T>,
    items: Seq<(Seq<char>, EntityIdView, T)>,
    k: Seq<char>,
)
    ensures
        m.dom().contains(k) ==> fill_missing(m, items).dom().contains(k) && fill_missing(m, items)[k]
            == m[k],
        (exists|i: int| 0 <= i < items.len() && items[i].0 == k) ==> fill_missing(m, items).dom().contains(
            k,
        ),
    decreases items.len(),
{
    if items.len() > 0 {
        let rest = items.drop_last();
        lemma_supplement_never_overrides(m, rest, k);
        if exists|i: int| 0 <= i < items.len() && items[i].0 == k {
            let i = choose|i: int| 0 <= i < items.len() && items[i].0 == k;
            if i < items.len() - 1 {
                assert(rest[i] == items[i]);
            }
        }
    }
}

/// Adds each item whose key is not yet stored; keeps stored entities.
fn add_missing<T>(collection: &mut EntityCollection<T>, items: Vec<(String, EntityId, T)>)
    requires
        old(collection).wf(),
    ensures
        final(collection).wf(),
        final(collection).by_key() == fill_missing(old(collection).by_key(), keyed_view(items@)),
        final(collection).key_index() == fill_missing_keys(old(collection).key_index(), keyed_view(items@)),
        final(collection).id_index() == fill_missing_ids(
            old(collection).id_index(),
            old(collection).key_index(),
            keyed_view(items@),
        ),
{
    let ghost all = keyed_view(items@);
    let ghost start = collection.by_key();
    let ghost start_keys = collection.key_index();
    let ghost start_ids = collection.id_index();
    let mut pending = reversed(items);
    let ghost mut done: Seq<(Seq<char>, EntityIdView, T)> = Seq::empty();
    while pending.len() > 0
        invariant
            collection.wf(),
            done.len() + pending@.len() == all.len(),
            done == all.subrange(0, done.len() as int),
            keyed_view(pending@.reverse()) == all.subrange(done.len() as int, all.len() as int),
            collection.by_key() == fill_missing(start, done),
            collection.key_index() == fill_missing_keys(start_keys, done),
            collection.id_index() == fill_missing_ids(start_ids, start_keys, done),
        decreases pending.len(),
    {
        let ghost rest = pending@.reverse();
        let (key, id, entity) = pending.pop().unwrap();
        proof {
            assert(rest[0] == (key, id, entity));
            assert(keyed_view(rest)[0] == all[done.len() as int]);
            assert(pending@.reverse() =~= rest.drop_first());
            assert(keyed_view(rest.drop_first()) =~= keyed_view(rest).drop_first());
        }
        let ghost kv = (key@, id@, entity);
        let ghost before_keys = collection.key_index();
        proof {
            collection.lemma_wf_indexes();
        }
        let present = collection.get_by_key(key.as_str());
        if present.is_none() {
            collection.upsert(key, id, entity);
        }
        proof {
            let nd = done.push(kv);
            assert(nd.drop_last() == done);
            assert(nd.last() == kv);
            assert(before_keys.dom().contains(kv.0) == present.is_some());
            assert(collection.key_index() == fill_missing_keys(start_keys, nd));
            assert(collection.id_index() == fill_missing_ids(start_ids, start_keys, nd));
            assert(nd =~= all.subrange(0, nd.len() as int));
            done = nd;
        }
    }
    proof {
        assert(done =~= all);
    }
}

} // verus!
