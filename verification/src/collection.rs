//! Reactive entity collection: entities stored under a primary key, with
//! a secondary index from `EntityId` to key.
//!
//! The two index maps are `dashmap::DashMap`s. Entities themselves sit in a
//! vector of `(key, entity)` pairs kept in insertion order, which also
//! gives the order of snapshots. Every mutation bumps a version counter.

use std::sync::Arc;

use dashmap::DashMap;
use vstd::prelude::*;

use crate::entity_id::{EntityId, EntityIdView};
use crate::text::str_eq;

verus! {

// ── dashmap::DashMap, as the index maps use it ──────────────────────

#[verifier::external_type_specification]
#[verifier::external_body]
#[verifier::reject_recursive_types(K)]
#[verifier::reject_recursive_types(V)]
#[verifier::reject_recursive_types(S)]
pub struct ExDashMap<K, V, S>(DashMap<K, V, S>);

/// What a `DashMap<EntityId, String>` holds, as a map over views.
pub uninterp spec fn id_index_contents(m: DashMap<EntityId, String>) -> Map<EntityIdView, Seq<char>>;

/// What a `DashMap<String, EntityId>` holds, as a map over views.
pub uninterp spec fn key_index_contents(m: DashMap<String, EntityId>) -> Map<Seq<char>, EntityIdView>;

/// `DashMap::new`: an empty map.
#[verifier::external_body]
fn id_index_new() -> (m: DashMap<EntityId, String>)
    ensures
        id_index_contents(m).dom() == Set::<EntityIdView>::empty(),
{
    DashMap::new()
}

/// `DashMap::insert`: afterwards `k` maps to `v`, other keys unchanged.
#[verifier::external_body]
fn id_index_insert(m: &mut DashMap<EntityId, String>, k: EntityId, v: String)
    ensures
        id_index_contents(*final(m)) == id_index_contents(*old(m)).insert(k@, v@),
{
    m.insert(k, v);
}

/// `DashMap::remove`: afterwards `k` is absent, other keys unchanged.
#[verifier::external_body]
fn id_index_remove(m: &mut DashMap<EntityId, String>, k: &EntityId)
    ensures
        id_index_contents(*final(m)) == id_index_contents(*old(m)).remove(k@),
{
    m.remove(k);
}

/// `DashMap::get`, with the value copied out of the guard.
#[verifier::external_body]
fn id_index_get(m: &DashMap<EntityId, String>, k: &EntityId) -> (r: Option<String>)
    ensures
        match r {
            Some(v) => id_index_contents(*m).dom().contains(k@) && v@ == id_index_contents(*m)[k@],
            None => !id_index_contents(*m).dom().contains(k@),
        },
{
    m.get(k).map(|r| r.value().clone())
}

/// `DashMap::clear`: afterwards the map is empty.
#[verifier::external_body]
fn id_index_clear(m: &mut DashMap<EntityId, String>)
    ensures
        id_index_contents(*final(m)).dom() == Set::<EntityIdView>::empty(),
{
    m.clear();
}

/// `DashMap::new`: an empty map.
#[verifier::external_body]
fn key_index_new() -> (m: DashMap<String, EntityId>)
    ensures
        key_index_contents(m).dom() == Set::<Seq<char>>::empty(),
{
    DashMap::new()
}

/// `DashMap::insert`: afterwards `k` maps to `v`, other keys unchanged.
#[verifier::external_body]
fn key_index_insert(m: &mut DashMap<String, EntityId>, k: String, v: EntityId)
    ensures
        key_index_contents(*final(m)) == key_index_contents(*old(m)).insert(k@, v@),
{
    m.insert(k, v);
}

/// `DashMap::remove`: returns the value that `k` had, if any; afterwards
/// `k` is absent, other keys unchanged.
#[verifier::external_body]
fn key_index_remove(m: &mut DashMap<String, EntityId>, k: &str) -> (r: Option<EntityId>)
    ensures
        key_index_contents(*final(m)) == key_index_contents(*old(m)).remove(k@),
        match r {
            Some(v) => key_index_contents(*old(m)).dom().contains(k@) && v@ == key_index_contents(*old(m))[k@],
            None => !key_index_contents(*old(m)).dom().contains(k@),
        },
{
    m.remove(k).map(|(_, v)| v)
}

/// `DashMap::get`, with the value copied out of the guard.
#[verifier::external_body]
fn key_index_get(m: &DashMap<String, EntityId>, k: &str) -> (r: Option<EntityId>)
    ensures
        match r {
            Some(v) => key_index_contents(*m).dom().contains(k@) && v@ == key_index_contents(*m)[k@],
            None => !key_index_contents(*m).dom().contains(k@),
        },
{
    m.get(k).map(|r| r.value().clone())
}

/// `DashMap::clear`: afterwards the map is empty.
#[verifier::external_body]
fn key_index_clear(m: &mut DashMap<String, EntityId>)
    ensures
        key_index_contents(*final(m)).dom() == Set::<Seq<char>>::empty(),
{
    m.clear();
}

/// std `Arc::clone`: another handle to the same value.
#[verifier::external_body]
pub(crate) fn share_entity<T>(a: &Arc<T>) -> (r: Arc<T>)
    ensures
        r == *a,
{
    Arc::clone(a)
}

// ── The pair vector as a map ────────────────────────────────────────

/// The map that a vector of `(key, entity)` pairs stands for.
pub open spec fn pairs_map<T>(s: Seq<(String, Arc<T>)>) -> Map<Seq<char>, T>
    decreases s.len(),
{
    if s.len() == 0 {
        Map::empty()
    } else {
        pairs_map(s.drop_last()).insert(s.last().0@, *s.last().1)
    }
}

/// The keys of a pair vector, in order.
pub open spec fn pair_keys<T>(s: Seq<(String, Arc<T>)>) -> Seq<Seq<char>> {
    s.map_values(|e: (String, Arc<T>)| e.0@)
}

proof fn lemma_pairs_map<T>(s: Seq<(String, Arc<T>)>)
    requires
        pair_keys(s).no_duplicates(),
    ensures
        forall|i: int| 0 <= i < s.len() ==> pairs_map(s).dom().contains(#[trigger] s[i].0@)
            && pairs_map(s)[s[i].0@] == *s[i].1,
        forall|k: Seq<char>| #[trigger] pairs_map(s).dom().contains(k) ==> exists|i: int|
            0 <= i < s.len() && #[trigger] s[i].0@ == k,
        pairs_map(s).dom().finite(),
        pairs_map(s).len() == s.len(),
    decreases s.len(),
{
    if s.len() > 0 {
        let t = s.drop_last();
        assert(pair_keys(t) =~= pair_keys(s).drop_last());
        lemma_pairs_map(t);
        let last = s.last();
        assert forall|i: int| 0 <= i < s.len() implies pairs_map(s).dom().contains(#[trigger] s[i].0@)
            && pairs_map(s)[s[i].0@] == *s[i].1 by {
            if i < s.len() - 1 {
                assert(t[i] == s[i]);
                assert(pair_keys(s)[i] != pair_keys(s)[s.len() - 1]);
            }
        }
        assert forall|k: Seq<char>| #[trigger] pairs_map(s).dom().contains(k) implies exists|i: int|
            0 <= i < s.len() && #[trigger] s[i].0@ == k by {
            if k == last.0@ {
                assert(s[s.len() - 1].0@ == k);
            } else {
                assert(pairs_map(t).dom().contains(k));
                let j = choose|j: int| 0 <= j < t.len() && #[trigger] t[j].0@ == k;
                assert(t[j] == s[j]);
                assert(s[j].0@ == k);
            }
        }
        if pairs_map(t).dom().contains(last.0@) {
            let j = choose|j: int| 0 <= j < t.len() && #[trigger] t[j].0@ == last.0@;
            assert(t[j] == s[j]);
            assert(pair_keys(s)[j] == pair_keys(s)[s.len() - 1]);
        }
    }
}

/// A key absent from the key list is absent from the map.
proof fn lemma_pairs_map_absent<T>(s: Seq<(String, Arc<T>)>, k: Seq<char>)
    requires
        pair_keys(s).no_duplicates(),
        !pair_keys(s).contains(k),
    ensures
        !pairs_map(s).dom().contains(k),
{
    lemma_pairs_map(s);
    if pairs_map(s).dom().contains(k) {
        let j = choose|j: int| 0 <= j < s.len() && #[trigger] s[j].0@ == k;
        assert(pair_keys(s)[j] == k);
    }
}

/// The map with one more `(key, entity)` pair.
pub open spec fn with_pair<T>(m: Map<Seq<char>, T>, e: (String, Arc<T>)) -> Map<Seq<char>, T> {
    m.insert(e.0@, *e.1)
}

/// Replacing the entity at a position that holds `key` updates the map at `key`.
proof fn lemma_pairs_map_set<T>(s: Seq<(String, Arc<T>)>, i: int, e: (String, Arc<T>))
    requires
        pair_keys(s).no_duplicates(),
        0 <= i < s.len(),
        e.0@ == s[i].0@,
    ensures
        pair_keys(s.update(i, e)) == pair_keys(s),
        pairs_map(s.update(i, e)) == with_pair(pairs_map(s), e),
{
    let u = s.update(i, e);
    assert(pair_keys(u) =~= pair_keys(s));
    lemma_pairs_map(s);
    lemma_pairs_map(u);
    let m = with_pair(pairs_map(s), e);
    assert forall|k: Seq<char>| #[trigger] pairs_map(u).dom().contains(k) <==> m.dom().contains(k) by {
        if pairs_map(u).dom().contains(k) {
            let j = choose|j: int| 0 <= j < u.len() && #[trigger] u[j].0@ == k;
            if j != i {
                assert(u[j] == s[j]);
                assert(s[j].0@ == k);
            }
        }
        if m.dom().contains(k) && k != e.0@ {
            let j = choose|j: int| 0 <= j < s.len() && #[trigger] s[j].0@ == k;
            assert(j != i);
            assert(u[j] == s[j]);
            assert(u[j].0@ == k);
        }
        if k == e.0@ {
            assert(u[i].0@ == k);
        }
    }
    assert forall|k: Seq<char>| #[trigger] pairs_map(u).dom().contains(k) implies pairs_map(u)[k] == m[k] by {
        let j = choose|j: int| 0 <= j < u.len() && #[trigger] u[j].0@ == k;
        if j != i {
            assert(u[j] == s[j]);
            assert(s[j].0@ == k);
            assert(pair_keys(s)[j] != pair_keys(s)[i]);
        } else {
            assert(u[j] == e);
        }
    }
    assert(pairs_map(u) =~= m);
}

/// Appending a pair with a fresh key inserts it into the map.
proof fn lemma_pairs_map_push<T>(s: Seq<(String, Arc<T>)>, e: (String, Arc<T>))
    requires
        pair_keys(s).no_duplicates(),
        !pair_keys(s).contains(e.0@),
    ensures
        pair_keys(s.push(e)) == pair_keys(s).push(e.0@),
        pair_keys(s.push(e)).no_duplicates(),
        pairs_map(s.push(e)) == with_pair(pairs_map(s), e),
{
    let u = s.push(e);
    assert(u.drop_last() == s);
    assert(pair_keys(u) =~= pair_keys(s).push(e.0@));
    assert forall|a: int, b: int| 0 <= a < b < pair_keys(u).len() implies pair_keys(u)[a] != pair_keys(u)[b] by {
        if b == s.len() {
            assert(pair_keys(s)[a] == pair_keys(u)[a]);
        }
    }
}

/// Removing the pair at a position removes its key from the map.
proof fn lemma_pairs_map_remove<T>(s: Seq<(String, Arc<T>)>, i: int)
    requires
        pair_keys(s).no_duplicates(),
        0 <= i < s.len(),
    ensures
        pair_keys(s.remove(i)) == pair_keys(s).remove(i),
        pair_keys(s.remove(i)).no_duplicates(),
        pairs_map(s.remove(i)) == pairs_map(s).remove(s[i].0@),
{
    let u = s.remove(i);
    assert(pair_keys(u) =~= pair_keys(s).remove(i));
    assert forall|a: int, b: int| 0 <= a < b < pair_keys(u).len() implies pair_keys(u)[a] != pair_keys(u)[b] by {
        let a2 = if a < i { a } else { a + 1 };
        let b2 = if b < i { b } else { b + 1 };
        assert(pair_keys(u)[a] == pair_keys(s)[a2]);
        assert(pair_keys(u)[b] == pair_keys(s)[b2]);
    }
    lemma_pairs_map(s);
    lemma_pairs_map(u);
    let key = s[i].0@;
    let m = pairs_map(s).remove(key);
    assert forall|k: Seq<char>| #[trigger] pairs_map(u).dom().contains(k) <==> m.dom().contains(k) by {
        if pairs_map(u).dom().contains(k) {
            let j = choose|j: int| 0 <= j < u.len() && #[trigger] u[j].0@ == k;
            let j2 = if j < i { j } else { j + 1 };
            assert(u[j] == s[j2]);
            assert(s[j2].0@ == k);
            assert(pair_keys(s)[j2] != pair_keys(s)[i]);
        }
        if m.dom().contains(k) {
            let j = choose|j: int| 0 <= j < s.len() && #[trigger] s[j].0@ == k;
            assert(j != i);
            let j2 = if j < i { j } else { j - 1 };
            assert(u[j2] == s[j]);
            assert(u[j2].0@ == k);
        }
    }
    assert forall|k: Seq<char>| #[trigger] pairs_map(u).dom().contains(k) implies pairs_map(u)[k] == m[k] by {
        let j = choose|j: int| 0 <= j < u.len() && #[trigger] u[j].0@ == k;
        let j2 = if j < i { j } else { j + 1 };
        assert(u[j] == s[j2]);
        assert(s[j2].0@ == k);
    }
    assert(pairs_map(u) =~= m);
}

/// Position of `key` in the pair vector.
fn find_key<T>(entries: &Vec<(String, Arc<T>)>, key: &str) -> (r: Option<usize>)
    ensures
        match r {
            Some(i) => i < entries.len() && entries@[i as int].0@ == key@,
            None => !pair_keys(entries@).contains(key@),
        },
{
    let mut i: usize = 0;
    while i < entries.len()
        invariant
            i <= entries.len(),
            forall|j: int| 0 <= j < i ==> entries@[j].0@ != key@,
        decreases entries.len() - i,
    {
        if str_eq(entries[i].0.as_str(), key) {
            return Some(i);
        }
        i = i + 1;
    }
    assert forall|j: int| 0 <= j < pair_keys(entries@).len() implies pair_keys(entries@)[j] != key@ by {
        assert(pair_keys(entries@)[j] == entries@[j].0@);
    }
    assert(!pair_keys(entries@).contains(key@));
    None
}

/// The version after one more mutation (wrapping at `u64::MAX`).
pub open spec fn next_version(v: u64) -> u64 {
    if v == u64::MAX { 0 } else { (v + 1) as u64 }
}

/// Identity index after an upsert of `(key, id)` over the old indexes.
pub open spec fn upserted_id_index(
    ids: Map<EntityIdView, Seq<char>>,
    keys: Map<Seq<char>, EntityIdView>,
    key: Seq<char>,
    id: EntityIdView,
) -> Map<EntityIdView, Seq<char>> {
    let cleaned = if keys.dom().contains(key) && keys[key] != id {
        ids.remove(keys[key])
    } else {
        ids
    };
    cleaned.insert(id, key)
}

/// Identity index after removing `key`: the key's id leaves the index
/// only while it still points at that key (it may have moved to another
/// key since).
pub open spec fn removed_id_index(
    ids: Map<EntityIdView, Seq<char>>,
    keys: Map<Seq<char>, EntityIdView>,
    key: Seq<char>,
) -> Map<EntityIdView, Seq<char>> {
    if keys.dom().contains(key) && ids.dom().contains(keys[key]) && ids[keys[key]] == key {
        ids.remove(keys[key])
    } else {
        ids
    }
}

// ── EntityCollection ────────────────────────────────────────────────

/// A collection of entities of one type, keyed by a primary key string
/// (MAC addresses for devices and clients, prefixed ids for the rest),
/// with a secondary index from entity id to key.
pub struct EntityCollection<T> {
    entries: Vec<(String, Arc<T>)>,
    id_to_key: DashMap<EntityId, String>,
    key_to_id: DashMap<String, EntityId>,
    version: u64,
}

impl<T> EntityCollection<T> {
    /// Entities by primary key.
    pub closed spec fn by_key(self) -> Map<Seq<char>, T> {
        pairs_map(self.entries@)
    }

    /// The primary keys in storage (and snapshot) order.
    pub closed spec fn key_order(self) -> Seq<Seq<char>> {
        pair_keys(self.entries@)
    }

    /// Secondary index: entity id to primary key.
    pub closed spec fn id_index(self) -> Map<EntityIdView, Seq<char>> {
        id_index_contents(self.id_to_key)
    }

    /// Reverse index: primary key to entity id.
    pub closed spec fn key_index(self) -> Map<Seq<char>, EntityIdView> {
        key_index_contents(self.key_to_id)
    }

    /// Mutation counter.
    pub closed spec fn version(self) -> u64 {
        self.version
    }

    /// Well-formedness: keys are distinct, every stored key has an id,
    /// and every indexed id points at a stored key that maps back to it.
    pub closed spec fn wf(self) -> bool {
        &&& pair_keys(self.entries@).no_duplicates()
        &&& self.key_index().dom() == self.by_key().dom()
        &&& forall|id: EntityIdView| #[trigger] self.id_index().dom().contains(id) ==> {
            &&& self.by_key().dom().contains(self.id_index()[id])
            &&& self.key_index()[self.id_index()[id]] == id
        }
    }

    /// Every stored key has an id, and only stored keys have one; every
    /// indexed id leads to a stored key whose id it is.
    pub proof fn lemma_wf_indexes(self)
        requires
            self.wf(),
        ensures
            self.key_index().dom() == self.by_key().dom(),
            forall|id: EntityIdView| #[trigger] self.id_index().dom().contains(id) ==> {
                &&& self.by_key().dom().contains(self.id_index()[id])
                &&& self.key_index()[self.id_index()[id]] == id
            },
    {
    }

    /// The key order lists each stored key exactly once.
    pub proof fn lemma_key_order(self)
        requires
            self.wf(),
        ensures
            self.key_order().no_duplicates(),
            self.key_order().len() == self.by_key().len(),
            self.by_key().dom().finite(),
            forall|k: Seq<char>| self.by_key().dom().contains(k) <==> self.key_order().contains(k),
    {
        lemma_pairs_map(self.entries@);
        assert forall|k: Seq<char>| self.by_key().dom().contains(k) implies self.key_order().contains(k) by {
            let j = choose|j: int| 0 <= j < self.entries@.len() && #[trigger] self.entries@[j].0@ == k;
            assert(self.key_order()[j] == k);
        }
        assert forall|k: Seq<char>| self.key_order().contains(k) implies self.by_key().dom().contains(k) by {
            let i = choose|i: int| 0 <= i < self.key_order().len() && self.key_order()[i] == k;
            assert(self.entries@[i].0@ == k);
        }
    }

    /// What an upsert stores is found again under its key and under its
    /// id; a different id the key had before is no longer indexed.
    pub proof fn lemma_upsert_then_lookup(self, key: Seq<char>, id: EntityIdView, e: T)
        requires
            self.wf(),
        ensures
            self.by_key().insert(key, e)[key] == e,
            upserted_id_index(self.id_index(), self.key_index(), key, id).dom().contains(id),
            upserted_id_index(self.id_index(), self.key_index(), key, id)[id] == key,
            self.key_index().dom().contains(key) && self.key_index()[key] != id
                ==> !upserted_id_index(self.id_index(), self.key_index(), key, id).dom().contains(
                self.key_index()[key],
            ),
    {
    }

    /// A removed key is found neither under itself nor under any id, and
    /// every id that led to another key still leads there.
    pub proof fn lemma_remove_then_lookup(self, key: Seq<char>)
        requires
            self.wf(),
            self.by_key().dom().contains(key),
        ensures
            !self.by_key().remove(key).dom().contains(key),
            forall|id: EntityIdView| #[trigger]
                removed_id_index(self.id_index(), self.key_index(), key).dom().contains(id)
                    ==> removed_id_index(self.id_index(), self.key_index(), key)[id] != key,
            forall|id: EntityIdView| #[trigger] self.id_index().dom().contains(id) && self.id_index()[id]
                != key ==> removed_id_index(self.id_index(), self.key_index(), key).dom().contains(id)
                && removed_id_index(self.id_index(), self.key_index(), key)[id] == self.id_index()[id],
    {
    }

    /// An empty collection.
    pub fn new() -> (c: Self)
        ensures
            c.wf(),
            c.by_key() == Map::<Seq<char>, T>::empty(),
            c.key_index() == Map::<Seq<char>, EntityIdView>::empty(),
            c.id_index() == Map::<EntityIdView, Seq<char>>::empty(),
            c.version() == 0,
    {
        let c = EntityCollection {
            entries: Vec::new(),
            id_to_key: id_index_new(),
            key_to_id: key_index_new(),
            version: 0,
        };
        assert(c.key_index() =~= Map::<Seq<char>, EntityIdView>::empty());
        assert(c.id_index() =~= Map::<EntityIdView, Seq<char>>::empty());
        assert(c.key_index().dom() =~= c.by_key().dom());
        c
    }

    fn bump_version(&mut self)
        ensures
            final(self).version == next_version(old(self).version),
            final(self).entries == old(self).entries,
            final(self).id_to_key == old(self).id_to_key,
            final(self).key_to_id == old(self).key_to_id,
    {
        self.version = self.version.wrapping_add(1);
    }

    /// Insert or update an entity. Returns `true` if the key was new.
    ///
    /// If the key was already stored under a different id, that old id
    /// leaves the secondary index.
    pub fn upsert(&mut self, key: String, id: EntityId, entity: T) -> (is_new: bool)
        requires
            old(self).wf(),
        ensures
            final(self).wf(),
            is_new == !old(self).by_key().dom().contains(key@),
            final(self).by_key() == old(self).by_key().insert(key@, entity),
            final(self).key_index() == old(self).key_index().insert(key@, id@),
            final(self).id_index() == upserted_id_index(
                old(self).id_index(),
                old(self).key_index(),
                key@,
                id@,
            ),
            final(self).version() == next_version(old(self).version()),
            is_new ==> final(self).key_order() == old(self).key_order().push(key@),
            !is_new ==> final(self).key_order() == old(self).key_order(),
    {
        proof {
            lemma_pairs_map(self.entries@);
        }
        let ghost old_entries = self.entries@;
        let ghost old_entries_map = pairs_map(old_entries);
        let ghost old_ids = self.id_index();
        let ghost old_keys = self.key_index();
        if let Some(old_id) = key_index_get(&self.key_to_id, key.as_str()) {
            if !old_id.same(&id) {
                id_index_remove(&mut self.id_to_key, &old_id);
            }
        }
        let idx = find_key(&self.entries, key.as_str());
        let is_new = idx.is_none();
        let stored = Arc::new(entity);
        match idx {
            Some(i) => {
                proof {
                    lemma_pairs_map_set(old_entries, i as int, (key, stored));
                }
                self.entries.set(i, (key.clone(), stored));
            },
            None => {
                proof {
                    lemma_pairs_map_push(old_entries, (key, stored));
                }
                self.entries.push((key.clone(), stored));
            },
        }
        proof {
            lemma_pairs_map(old_entries);
            assert(is_new == !old_entries_map.dom().contains(key@)) by {
                if !is_new {
                    let i = idx.unwrap() as int;
                    assert(old_entries[i].0@ == key@);
                } else if old_entries_map.dom().contains(key@) {
                    let j = choose|j: int| 0 <= j < old_entries.len() && #[trigger] old_entries[j].0@ == key@;
                    assert(pair_keys(old_entries)[j] == key@);
                }
            }
        }
        id_index_insert(&mut self.id_to_key, id.duplicate(), key.clone());
        key_index_insert(&mut self.key_to_id, key, id);
        self.bump_version();
        proof {
            assert(self.key_index().dom() =~= self.by_key().dom());
            assert forall|i: EntityIdView| #[trigger] self.id_index().dom().contains(i) implies {
                &&& self.by_key().dom().contains(self.id_index()[i])
                &&& self.key_index()[self.id_index()[i]] == i
            } by {
                if i != id@ {
                    assert(old_ids.dom().contains(i));
                    let k2 = old_ids[i];
                    assert(self.id_index()[i] == k2);
                    if k2 == key@ {
                        assert(old_keys[key@] == i);
                        assert(false);
                    }
                }
            }
        }
        is_new
    }

    /// Remove an entity by key. Returns the removed entity if it existed.
    pub fn remove(&mut self, key: &str) -> (removed: Option<Arc<T>>)
        requires
            old(self).wf(),
        ensures
            final(self).wf(),
            match removed {
                Some(v) => {
                    &&& old(self).by_key().dom().contains(key@)
                    &&& *v == old(self).by_key()[key@]
                    &&& final(self).by_key() == old(self).by_key().remove(key@)
                    &&& final(self).key_index() == old(self).key_index().remove(key@)
                    &&& final(self).id_index() == removed_id_index(
                        old(self).id_index(),
                        old(self).key_index(),
                        key@,
                    )
                    &&& final(self).version() == next_version(old(self).version())
                    &&& final(self).key_order() == old(self).key_order().remove(
                        old(self).key_order().index_of(key@),
                    )
                },
                None => {
                    &&& !old(self).by_key().dom().contains(key@)
                    &&& final(self).by_key() == old(self).by_key()
                    &&& final(self).key_index() == old(self).key_index()
                    &&& final(self).id_index() == old(self).id_index()
                    &&& final(self).version() == old(self).version()
                    &&& final(self).key_order() == old(self).key_order()
                },
            },
    {
        proof {
            lemma_pairs_map(self.entries@);
        }
        let ghost old_entries = self.entries@;
        let ghost old_keys = self.key_index();
        let ghost old_ids = self.id_index();
        let idx = find_key(&self.entries, key);
        match idx {
            None => {
                proof {
                    lemma_pairs_map_absent(self.entries@, key@);
                }
                None
            },
            Some(i) => {
                proof {
                    lemma_pairs_map_remove(old_entries, i as int);
                    pair_keys(old_entries).index_of_first_ensures(key@);
                    assert(pair_keys(old_entries)[i as int] == key@);
                    lemma_pairs_map(old_entries);
                }
                let (_, v) = self.entries.remove(i);
                let removed_id = key_index_remove(&mut self.key_to_id, key);
                if let Some(id0) = removed_id {
                    let still_here = match id_index_get(&self.id_to_key, &id0) {
                        Some(k) => str_eq(k.as_str(), key),
                        None => false,
                    };
                    if still_here {
                        id_index_remove(&mut self.id_to_key, &id0);
                    }
                }
                self.bump_version();
                proof {
                    assert(self.key_index().dom() =~= self.by_key().dom());
                    assert forall|j: EntityIdView| #[trigger] self.id_index().dom().contains(j) implies {
                        &&& self.by_key().dom().contains(self.id_index()[j])
                        &&& self.key_index()[self.id_index()[j]] == j
                    } by {
                        assert(old_ids.dom().contains(j));
                        let k2 = old_ids[j];
                        if k2 == key@ {
                            assert(old_keys[key@] == j);
                            assert(old_ids[old_keys[key@]] == key@);
                            assert(false);
                        }
                    }
                }
                Some(v)
            },
        }
    }

    /// Look up an entity by its primary key.
    pub fn get_by_key(&self, key: &str) -> (r: Option<Arc<T>>)
        requires
            self.wf(),
        ensures
            match r {
                Some(v) => self.by_key().dom().contains(key@) && *v == self.by_key()[key@],
                None => !self.by_key().dom().contains(key@),
            },
    {
        proof {
            lemma_pairs_map(self.entries@);
        }
        match find_key(&self.entries, key) {
            Some(i) => {
                assert(self.entries@[i as int].0@ == key@);
                Some(share_entity(&self.entries[i].1))
            },
            None => {
                proof {
                    lemma_pairs_map_absent(self.entries@, key@);
                }
                None
            },
        }
    }

    /// Look up an entity by its id (secondary index).
    pub fn get_by_id(&self, id: &EntityId) -> (r: Option<Arc<T>>)
        requires
            self.wf(),
        ensures
            match r {
                Some(v) => self.id_index().dom().contains(id@)
                    && *v == self.by_key()[self.id_index()[id@]],
                None => !self.id_index().dom().contains(id@),
            },
    {
        match id_index_get(&self.id_to_key, id) {
            Some(key) => {
                assert(self.id_index().dom().contains(id@));
                let r = self.get_by_key(key.as_str());
                assert(r is Some);
                r
            },
            None => None,
        }
    }

    /// Remove all entities.
    pub fn clear(&mut self)
        requires
            old(self).wf(),
        ensures
            final(self).wf(),
            final(self).by_key() == Map::<Seq<char>, T>::empty(),
            final(self).key_index() == Map::<Seq<char>, EntityIdView>::empty(),
            final(self).id_index() == Map::<EntityIdView, Seq<char>>::empty(),
            final(self).version() == next_version(old(self).version()),
    {
        self.entries.clear();
        id_index_clear(&mut self.id_to_key);
        key_index_clear(&mut self.key_to_id);
        self.bump_version();
        proof {
            assert(self.entries@.len() == 0);
            assert(self.key_index() =~= Map::<Seq<char>, EntityIdView>::empty());
            assert(self.id_index() =~= Map::<EntityIdView, Seq<char>>::empty());
            assert(self.key_index().dom() =~= self.by_key().dom());
        }
    }

    /// Number of stored entities.
    pub fn len(&self) -> (n: usize)
        requires
            self.wf(),
        ensures
            n == self.by_key().len(),
    {
        proof {
            lemma_pairs_map(self.entries@);
        }
        self.entries.len()
    }

    /// Whether no entity is stored.
    pub fn is_empty(&self) -> (r: bool)
        requires
            self.wf(),
        ensures
            r == (self.by_key().len() == 0),
    {
        proof {
            lemma_pairs_map(self.entries@);
        }
        self.entries.len() == 0
    }

    /// All primary keys, in storage order.
    pub fn keys(&self) -> (ks: Vec<String>)
        requires
            self.wf(),
        ensures
            ks.len() == self.key_order().len(),
            forall|i: int| 0 <= i < ks.len() ==> #[trigger] ks@[i]@ == self.key_order()[i],
    {
        let mut ks: Vec<String> = Vec::new();
        let mut i: usize = 0;
        while i < self.entries.len()
            invariant
                i <= self.entries.len(),
                ks.len() == i,
                forall|j: int| 0 <= j < i ==> #[trigger] ks@[j]@ == self.entries@[j].0@,
            decreases self.entries.len() - i,
        {
            ks.push(self.entries[i].0.clone());
            i = i + 1;
        }
        ks
    }

    /// The current entities, in key order.
    pub fn snapshot(&self) -> (snap: Vec<Arc<T>>)
        requires
            self.wf(),
        ensures
            snap.len() == self.key_order().len(),
            forall|i: int| 0 <= i < snap.len() ==> *#[trigger] snap@[i] == self.by_key()[self.key_order()[i]],
    {
        proof {
            lemma_pairs_map(self.entries@);
        }
        let mut snap: Vec<Arc<T>> = Vec::new();
        let mut i: usize = 0;
        while i < self.entries.len()
            invariant
                i <= self.entries.len(),
                snap.len() == i,
                pair_keys(self.entries@).no_duplicates(),
                forall|j: int| 0 <= j < i ==> *#[trigger] snap@[j] == *self.entries@[j].1,
            decreases self.entries.len() - i,
        {
            snap.push(share_entity(&self.entries[i].1));
            i = i + 1;
        }
        assert forall|j: int| 0 <= j < snap.len() implies *#[trigger] snap@[j] == self.by_key()[self.key_order()[j]] by {
            assert(self.key_order()[j] == self.entries@[j].0@);
            assert(pairs_map(self.entries@)[self.entries@[j].0@] == *self.entries@[j].1);
        }
        snap
    }
}

} // verus!
