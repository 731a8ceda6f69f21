//! The bounded object cache: at most one load in flight per key, shared
//! results, and a release function run exactly once when the last handle
//! of an entry is gone.
//!
//! The manager here is the cache's state machine on plain data.  The
//! surrounding runtime owns the locks and futures, performs the actual
//! `load` and `free` calls of its store, and drives this machine: every
//! decision — hit, join an in-flight load, start one, evict, free — is
//! taken and proved here.

use vstd::prelude::*;

use crate::text::str_eq;

verus! {

/// Declares the bounded LRU collection of the `lru` crate so its values
/// can live inside verified state.
#[verifier::external_type_specification]
#[verifier::external_body]
#[verifier::reject_recursive_types(K)]
#[verifier::reject_recursive_types(V)]
#[verifier::reject_recursive_types(S)]
pub struct ExLruCache<K, V, S>(lru::LruCache<K, V, S>);

/// The concrete LRU instantiation the manager stores: key to entry id,
/// hashed with the standard library's seeded state.
pub type LruMap = lru::LruCache<String, u64, std::hash::RandomState>;

/// What the LRU collection holds: key to entry id.
pub uninterp spec fn lru_contents(c: LruMap) -> Map<Seq<char>, u64>;

/// The bound the LRU collection was created with.
pub uninterp spec fn lru_cap(c: LruMap) -> int;

/// Relies on `lru::LruCache::new`: an empty cache with the given bound.
#[verifier::external_body]
fn lru_new(cap: usize) -> (r: LruMap)
    requires
        cap >= 1,
    ensures
        forall|k: Seq<char>| !(#[trigger] lru_contents(r).contains_key(k)),
        lru_cap(r) == cap,
{
    lru::LruCache::with_hasher(
        std::num::NonZeroUsize::new(cap).unwrap(),
        std::hash::RandomState::new(),
    )
}

/// Relies on `lru::LruCache::get`: returns the entry under the key; only
/// the internal recency order changes.
#[verifier::external_body]
fn lru_get(c: &mut LruMap, k: &String) -> (r: Option<u64>)
    ensures
        lru_contents(*final(c)) == lru_contents(*old(c)),
        lru_cap(*final(c)) == lru_cap(*old(c)),
        r == (if lru_contents(*old(c)).contains_key(k@) {
            Some(lru_contents(*old(c))[k@])
        } else {
            None::<u64>
        }),
{
    c.get(k).copied()
}

/// How a push changes the LRU's contents: the pair goes in, and the
/// displaced pair — the old value under the same key, or, when the cache
/// is full and the key is new, some resident pair — comes out.
pub open spec fn push_effect(
    before: Map<Seq<char>, u64>,
    cap: int,
    k: Seq<char>,
    v: u64,
    after: Map<Seq<char>, u64>,
    r: Option<(String, u64)>,
) -> bool {
    match r {
        None => !before.contains_key(k) && before.dom().len() < cap && after == before.insert(
            k,
            v,
        ),
        Some(ev) => (ev.0@ == k && before.contains_key(k) && ev.1 == before[k] && after
            == before.insert(k, v)) || (ev.0@ != k && !before.contains_key(k)
            && before.contains_key(ev.0@) && ev.1 == before[ev.0@] && before.dom().len() == cap
            && after == before.remove(ev.0@).insert(k, v)),
    }
}

/// Relies on `lru::LruCache::push`: inserts the pair and returns the
/// displaced one, as [`push_effect`] describes.
#[verifier::external_body]
fn lru_push(c: &mut LruMap, k: String, v: u64) -> (r: Option<(String, u64)>)
    ensures
        lru_cap(*final(c)) == lru_cap(*old(c)),
        push_effect(lru_contents(*old(c)), lru_cap(*old(c)), k@, v, lru_contents(*final(c)), r),
{
    c.push(k, v)
}

/// Relies on `lru::LruCache::pop`: removes and returns the entry under
/// the key.
#[verifier::external_body]
fn lru_pop(c: &mut LruMap, k: &String) -> (r: Option<u64>)
    ensures
        lru_cap(*final(c)) == lru_cap(*old(c)),
        match r {
            Some(v) => lru_contents(*old(c)).contains_key(k@) && v == lru_contents(*old(c))[k@]
                && lru_contents(*final(c)) == lru_contents(*old(c)).remove(k@),
            None => !lru_contents(*old(c)).contains_key(k@) && lru_contents(*final(c))
                == lru_contents(*old(c)),
        },
{
    c.pop(k)
}

/// Removing one occurrence of `k` from a duplicate-free sequence keeps it
/// duplicate-free, keeps every other element, and leaves no `k` behind.
proof fn lemma_nodup_remove(l: Seq<Seq<char>>, k: Seq<char>)
    requires
        forall|i: int, j: int| 0 <= i < l.len() && 0 <= j < l.len() && l[i] == l[j] ==> i == j,
        l.contains(k),
    ensures
        ({
            let r = l.remove_value(k);
            &&& r.len() == l.len() - 1
            &&& !r.contains(k)
            &&& forall|x: int| 0 <= x < r.len() ==> l.contains(#[trigger] r[x]) && r[x] != k
            &&& forall|i: int, j: int|
                0 <= i < r.len() && 0 <= j < r.len() && r[i] == r[j] ==> i == j
        }),
{
    l.index_of_first_ensures(k);
    let idx = l.index_of_first(k)->0;
    let r = l.remove(idx);
    assert forall|x: int| 0 <= x < r.len() implies l.contains(#[trigger] r[x]) && r[x] != k by {
        if x < idx {
            assert(r[x] == l[x]);
        } else {
            assert(r[x] == l[x + 1]);
        }
    }
    assert forall|i: int, j: int|
        0 <= i < r.len() && 0 <= j < r.len() && r[i] == r[j] implies i == j by {
        let li = if i < idx { i } else { i + 1 };
        let lj = if j < idx { j } else { j + 1 };
        assert(r[i] == l[li]);
        assert(r[j] == l[lj]);
    }
    if r.contains(k) {
        let x = choose|x: int| 0 <= x < r.len() && r[x] == k;
        assert(l.contains(r[x]) && r[x] != k);
    }
}

/// One loaded value with its bookkeeping.  `refs` counts every
/// outstanding handle, the cache's own included while `cached` holds.
pub struct Entry<V> {
    pub key: String,
    pub value: V,
    pub refs: u64,
    pub cached: bool,
}

/// What a lookup decides.
#[derive(Clone, Copy, Debug, PartialEq, Eq, Structural)]
pub enum LookupResult {
    /// The value is cached; a fresh handle on this entry was granted.
    Hit(u64),
    /// Another load of this key is in flight; wait for it and look up
    /// again.
    InFlight,
    /// No value and no load: the key was marked in flight, and the caller
    /// must run the store's `load` and then complete it.
    StartLoad,
}

/// The cache manager's state: loaded entries, the bounded LRU over them,
/// and the keys with a load in flight.
pub struct Manager<V> {
    entries: Vec<Option<Entry<V>>>,
    cache: LruMap,
    loading: Vec<String>,
}

impl<V> Manager<V> {
    /// The slot table: entry ids are indices, freed slots are `None`.
    pub closed spec fn slots(&self) -> Seq<Option<Entry<V>>> {
        self.entries@
    }

    /// The LRU's contents: key to entry id.
    pub closed spec fn cached_map(&self) -> Map<Seq<char>, u64> {
        lru_contents(self.cache)
    }

    /// The keys whose load is in flight.
    pub closed spec fn loading_keys(&self) -> Seq<Seq<char>> {
        self.loading@.map_values(|s: String| s@)
    }

    /// The bound the cache was created with.
    pub closed spec fn capacity(&self) -> int {
        lru_cap(self.cache)
    }

    /// Every invariant of the cache discipline:
    /// - a key with a load in flight has no cached value, and appears in
    ///   flight at most once (the single-flight discipline);
    /// - every cached key points at a live slot that knows it is cached
    ///   under that key, and every slot marked cached is reachable that
    ///   way;
    /// - a live slot holds at least one reference: a slot reaching zero
    ///   is freed at once, so its release callback runs exactly once.
    pub open spec fn inv(&self) -> bool {
        &&& forall|i: int, j: int|
            0 <= i < self.loading_keys().len() && 0 <= j < self.loading_keys().len()
                && self.loading_keys()[i] == self.loading_keys()[j] ==> i == j
        &&& forall|i: int|
            0 <= i < self.loading_keys().len() ==> !self.cached_map().contains_key(
                #[trigger] self.loading_keys()[i],
            )
        &&& forall|k: Seq<char>|
            #[trigger] self.cached_map().contains_key(k) ==> {
                let e = self.cached_map()[k];
                &&& e < self.slots().len()
                &&& (self.slots()[e as int] matches Some(en) && en.cached && en.key@ == k)
            }
        &&& forall|e: int|
            0 <= e < self.slots().len() ==> match #[trigger] self.slots()[e] {
                Some(en) => en.refs >= 1 && (en.cached ==> self.cached_map().contains_key(en.key@)
                    && self.cached_map()[en.key@] == e as u64),
                None => true,
            }
        &&& self.slots().len() <= u64::MAX
        &&& self.capacity() >= 1
    }

    /// A fresh manager with the given bound.
    pub fn new(capacity: usize) -> (r: Manager<V>)
        requires
            capacity >= 1,
        ensures
            r.inv(),
            r.slots().len() == 0,
            forall|k: Seq<char>| !(#[trigger] r.cached_map().contains_key(k)),
            r.loading_keys().len() == 0,
            r.capacity() == capacity,
    {
        let r = Manager::<V> { entries: Vec::new(), cache: lru_new(capacity), loading: Vec::new() };
        proof {
            assert(r.loading_keys() =~= Seq::<Seq<char>>::empty());
        }
        r
    }

    /// Whether a handle still refers to a live slot.
    pub fn is_live(&self, e: u64) -> (r: bool)
        ensures
            r == (e < self.slots().len() && self.slots()[e as int] is Some),
    {
        if e >= self.entries.len() as u64 {
            return false;
        }
        let idx: usize = e as usize;
        proof {
            assert(idx as int == e as int);
        }
        matches!(&self.entries[idx], Some(_))
    }

    /// The value a handle refers to.
    pub fn value(&self, e: u64) -> (r: &V)
        requires
            e < self.slots().len(),
            self.slots()[e as int] is Some,
        ensures
            self.slots()[e as int] matches Some(en) && *r == en.value,
    {
        let n = self.entries.len();
        proof {
            assert(e < n);
        }
        let idx: usize = e as usize;
        proof {
            assert(idx as int == e as int);
        }
        match &self.entries[idx] {
            Some(en) => &en.value,
            None => vstd::pervasive::unreached(),
        }
    }

    /// Whether a load of this key is in flight.
    fn is_loading(&self, key: &str) -> (r: bool)
        ensures
            r == self.loading_keys().contains(key@),
    {
        let mut i: usize = 0;
        while i < self.loading.len()
            invariant
                i <= self.loading@.len(),
                forall|j: int| 0 <= j < i ==> self.loading_keys()[j] != key@,
            decreases self.loading@.len() - i,
        {
            if str_eq(self.loading[i].as_str(), key) {
                proof {
                    assert(self.loading_keys()[i as int] == self.loading@[i as int]@);
                }
                return true;
            }
            proof {
                assert(self.loading_keys()[i as int] == self.loading@[i as int]@);
            }
            i += 1;
        }
        proof {
            assert forall|j: int|
                0 <= j < self.loading_keys().len() implies self.loading_keys()[j] != key@ by {}
        }
        false
    }


    /// One slot's reference count went up by one; all else is kept.
    pub open spec fn bumped(a: Option<Entry<V>>, b: Option<Entry<V>>) -> bool {
        match (a, b) {
            (Some(x), Some(y)) => y.key == x.key && y.value == x.value && y.cached == x.cached
                && x.refs < u64::MAX && y.refs == x.refs + 1,
            _ => false,
        }
    }

    /// The fast path of `load`: a cached value grants a handle at once; a
    /// key someone else is loading is waited on; otherwise the caller is
    /// elected to load, and the key is marked in flight.  (A reference
    /// count at the machine limit defers the caller like an in-flight
    /// load.)
    pub fn lookup(&mut self, key: &String) -> (r: LookupResult)
        requires
            old(self).inv(),
        ensures
            final(self).inv(),
            final(self).capacity() == old(self).capacity(),
            match r {
                LookupResult::Hit(e) => {
                    &&& old(self).cached_map().contains_key(key@)
                    &&& e == old(self).cached_map()[key@]
                    &&& final(self).cached_map() == old(self).cached_map()
                    &&& final(self).loading_keys() == old(self).loading_keys()
                    &&& final(self).slots().len() == old(self).slots().len()
                    &&& Self::bumped(old(self).slots()[e as int], final(self).slots()[e as int])
                    &&& forall|j: int|
                        0 <= j < old(self).slots().len() && j != e as int ==> final(self).slots()[j]
                            == old(self).slots()[j]
                },
                LookupResult::InFlight => {
                    &&& final(self).slots() == old(self).slots()
                    &&& final(self).cached_map() == old(self).cached_map()
                    &&& final(self).loading_keys() == old(self).loading_keys()
                    &&& (old(self).loading_keys().contains(key@) || (old(
                        self,
                    ).cached_map().contains_key(key@) && (old(self).slots()[old(
                        self,
                    ).cached_map()[key@] as int] matches Some(en) && en.refs == u64::MAX)))
                },
                LookupResult::StartLoad => {
                    &&& !old(self).cached_map().contains_key(key@)
                    &&& !old(self).loading_keys().contains(key@)
                    &&& final(self).loading_keys() == old(self).loading_keys().push(key@)
                    &&& final(self).cached_map() == old(self).cached_map()
                    &&& final(self).slots() == old(self).slots()
                },
            },
    {
        let found = lru_get(&mut self.cache, key);
        match found {
            Some(e) => {
                proof {
                    assert(old(self).cached_map().contains_key(key@));
                }
                let n = self.entries.len();
                proof {
                    assert(e < n);
                }
                let idx: usize = e as usize;
                proof {
                    assert(idx as int == e as int);
                }
                let slot_ref = &mut self.entries[idx];
                let slot = slot_ref.take();
                match slot {
                    Some(en) => {
                        if en.refs == u64::MAX {
                            self.entries[idx] = Some(en);
                            proof {
                                assert(self.entries@ =~= old(self).entries@);
                            }
                            LookupResult::InFlight
                        } else {
                            let Entry { key: ekey, value, refs, cached } = en;
                            self.entries[idx] = Some(
                                Entry { key: ekey, value, refs: refs + 1, cached },
                            );
                            proof {
                                let new = *self;
                                assert(new.loading_keys() == old(self).loading_keys());
                                assert forall|k: Seq<char>|
                                    #[trigger] new.cached_map().contains_key(k) implies {
                                    let x = new.cached_map()[k];
                                    &&& x < new.slots().len()
                                    &&& (new.slots()[x as int] matches Some(y) && y.cached
                                        && y.key@ == k)
                                } by {
                                    assert(old(self).cached_map().contains_key(k));
                                }
                                assert forall|j: int|
                                    0 <= j < new.slots().len() implies match #[trigger] new.slots()[j] {
                                    Some(y) => y.refs >= 1 && (y.cached
                                        ==> new.cached_map().contains_key(y.key@)
                                        && new.cached_map()[y.key@] == j as u64),
                                    None => true,
                                } by {
                                    if j != e as int {
                                        assert(new.slots()[j] == old(self).slots()[j]);
                                    }
                                }
                                assert(new.inv());
                            }
                            LookupResult::Hit(e)
                        }
                    },
                    None => vstd::pervasive::unreached(),
                }
            },
            None => {
                if self.is_loading(key.as_str()) {
                    LookupResult::InFlight
                } else {
                    proof {
                        assert(!old(self).cached_map().contains_key(key@));
                    }
                    self.loading.push(key.clone());
                    proof {
                        assert(self.loading_keys() =~= old(self).loading_keys().push(key@));
                        let new = *self;
                        let lk = new.loading_keys();
                        let l0 = old(self).loading_keys();
                        let n0 = l0.len() as int;
                        assert forall|i: int, j: int|
                            0 <= i < lk.len() && 0 <= j < lk.len() && lk[i] == lk[j] implies i
                            == j by {
                            if i < n0 && j < n0 {
                                assert(l0[i] == l0[j]);
                            } else if i < n0 && j == n0 {
                                assert(l0[i] == key@);
                                assert(l0.contains(l0[i]));
                            } else if j < n0 && i == n0 {
                                assert(l0[j] == key@);
                                assert(l0.contains(l0[j]));
                            }
                        }
                        assert forall|i: int|
                            0 <= i < lk.len() implies !new.cached_map().contains_key(
                            #[trigger] lk[i],
                        ) by {
                            if i < n0 {
                                assert(lk[i] == l0[i]);
                            }
                        }
                        assert(new.inv());
                    }
                    LookupResult::StartLoad
                }
            },
        }
    }


    /// Finishes an elected load that succeeded: the value enters the
    /// cache under the key, the in-flight mark is cleared, and one handle
    /// on the fresh entry is granted (the cache itself holds the other
    /// reference).  When the insertion evicts a resident entry whose last
    /// reference was the cache's own, that entry's value comes back and
    /// the caller must run the store's release on it — this is the only
    /// time it is surrendered.
    pub fn complete_load_ok(&mut self, key: &String, value: V) -> (r: (u64, Option<(String, V)>))
        requires
            old(self).inv(),
            old(self).loading_keys().contains(key@),
            old(self).slots().len() < u64::MAX,
        ensures
            final(self).inv(),
            final(self).capacity() == old(self).capacity(),
            final(self).loading_keys() == old(self).loading_keys().remove_value(key@),
            r.0 == old(self).slots().len(),
            final(self).slots().len() == old(self).slots().len() + 1,
            final(self).slots()[r.0 as int] matches Some(en) && en.key@ == key@ && en.value
                == value && en.refs == 2 && en.cached,
            final(self).cached_map().contains_key(key@) && final(self).cached_map()[key@] == r.0,
            match r.1 {
                Some(freed) => {
                    &&& old(self).cached_map().contains_key(freed.0@)
                    &&& freed.0@ != key@
                    &&& !final(self).cached_map().contains_key(freed.0@)
                    &&& (old(self).slots()[old(self).cached_map()[freed.0@] as int] matches Some(
                        en,
                    ) && en.refs == 1 && en.value == freed.1)
                    &&& final(self).slots()[old(self).cached_map()[freed.0@] as int] is None
                },
                None => true,
            },
    {
        proof {
            let l0 = old(self).loading_keys();
            let i = choose|i: int| 0 <= i < l0.len() && l0[i] == key@;
            assert(!old(self).cached_map().contains_key(key@));
            lemma_nodup_remove(l0, key@);
        }
        self.unmark_loading(key.as_str());
        let e = self.entries.len() as u64;
        self.entries.push(Some(Entry { key: key.clone(), value, refs: 2, cached: true }));
        let ghost l1 = self.loading_keys();
        let ghost s1 = self.entries@;
        let evicted = lru_push(&mut self.cache, key.clone(), e);
        match evicted {
            None => {
                proof {
                    let new = *self;
                    let m0 = old(self).cached_map();
                    let m1 = new.cached_map();
                    assert(m1 == m0.insert(key@, e));
                    assert(new.slots()[e as int] matches Some(y) && y.key@ == key@ && y.cached);
                    assert forall|k: Seq<char>| #[trigger] m1.contains_key(k) implies {
                        let x = m1[k];
                        &&& x < new.slots().len()
                        &&& (new.slots()[x as int] matches Some(y) && y.cached && y.key@ == k)
                    } by {
                        if k != key@ {
                            assert(m0.contains_key(k));
                            assert(new.slots()[m0[k] as int] == old(self).slots()[m0[k] as int]);
                        }
                    }
                    assert forall|j: int|
                        0 <= j < new.slots().len() implies match #[trigger] new.slots()[j] {
                        Some(y) => y.refs >= 1 && (y.cached ==> m1.contains_key(y.key@)
                            && m1[y.key@] == j as u64),
                        None => true,
                    } by {
                        if j < old(self).slots().len() {
                            assert(new.slots()[j] == old(self).slots()[j]);
                            match old(self).slots()[j] {
                                Some(y) => {
                                    if y.cached {
                                        assert(m0.contains_key(y.key@));
                                        assert(y.key@ != key@);
                                    }
                                },
                                None => {},
                            }
                        }
                    }
                    assert forall|i: int|
                        0 <= i < l1.len() implies !m1.contains_key(#[trigger] l1[i]) by {
                        lemma_nodup_remove(old(self).loading_keys(), key@);
                        assert(l1.contains(l1[i]));
                        assert(old(self).loading_keys().contains(l1[i]));
                        assert(l1[i] != key@);
                    }
                    assert forall|i: int, j: int|
                        0 <= i < l1.len() && 0 <= j < l1.len() && l1[i] == l1[j] implies i == j by {
                        lemma_nodup_remove(old(self).loading_keys(), key@);
                    }
                    assert(new.inv());
                }
                (e, None)
            },
            Some(pair) => {
                let (ekey, ee) = pair;
                proof {
                    assert(ekey@ != key@);
                    assert(old(self).cached_map().contains_key(ekey@));
                    assert(ee < old(self).slots().len());
                    assert(ee != e);
                }
                let n = self.entries.len();
                proof {
                    assert(ee < n);
                }
                let eidx: usize = ee as usize;
                proof {
                    assert(eidx as int == ee as int);
                }
                let slot_ref = &mut self.entries[eidx];
                let slot = slot_ref.take();
                match slot {
                    Some(en) => {
                        let Entry { key: k2, value: v2, refs, cached: _ } = en;
                        let freed: Option<(String, V)>;
                        if refs == 1 {
                            proof {
                                assert(k2@ == ekey@);
                            }
                            freed = Some((ekey, v2));
                        } else {
                            self.entries[eidx] = Some(
                                Entry { key: k2, value: v2, refs: refs - 1, cached: false },
                            );
                            freed = None;
                        }
                        proof {
                            let new = *self;
                            let m0 = old(self).cached_map();
                            let m1 = new.cached_map();
                            assert(m1 == m0.remove(ekey@).insert(key@, e));
                            if freed is Some {
                                assert(m0.contains_key(ekey@) && ekey@ != key@
                                    && !m1.contains_key(ekey@) && (old(self).slots()[m0[ekey@] as int]
                                    matches Some(y) && y.refs == 1) && new.slots()[m0[ekey@] as int]
                                    is None);
                            }
                            assert(new.slots().len() == s1.len());
                            assert(new.slots()[e as int] == s1[e as int]);
                            assert forall|k: Seq<char>| #[trigger] m1.contains_key(k) implies {
                                let x = m1[k];
                                &&& x < new.slots().len()
                                &&& (new.slots()[x as int] matches Some(y) && y.cached && y.key@
                                    == k)
                            } by {
                                if k != key@ {
                                    assert(m0.contains_key(k));
                                    assert(k != ekey@);
                                    let x = m0[k];
                                    if x == ee {
                                        assert(old(self).slots()[ee as int] matches Some(y)
                                            && y.key@ == k);
                                        assert(old(self).slots()[ee as int] matches Some(y)
                                            && y.key@ == ekey@);
                                        assert(false);
                                    }
                                    assert(new.slots()[x as int] == old(self).slots()[x as int]);
                                }
                            }
                            assert forall|j: int|
                                0 <= j < new.slots().len() implies match #[trigger] new.slots()[j] {
                                Some(y) => y.refs >= 1 && (y.cached ==> m1.contains_key(y.key@)
                                    && m1[y.key@] == j as u64),
                                None => true,
                            } by {
                                if j == ee as int {
                                } else if j < old(self).slots().len() {
                                    assert(new.slots()[j] == old(self).slots()[j]);
                                    match old(self).slots()[j] {
                                        Some(y) => {
                                            if y.cached {
                                                assert(m0.contains_key(y.key@));
                                                assert(m0[y.key@] == j as u64);
                                                assert(y.key@ != key@);
                                                if y.key@ == ekey@ {
                                                    assert(m0[ekey@] == ee);
                                                    assert(false);
                                                }
                                            }
                                        },
                                        None => {},
                                    }
                                }
                            }
                            assert forall|i: int|
                                0 <= i < l1.len() implies !m1.contains_key(#[trigger] l1[i]) by {
                                lemma_nodup_remove(old(self).loading_keys(), key@);
                                assert(l1.contains(l1[i]));
                                assert(old(self).loading_keys().contains(l1[i]));
                                assert(l1[i] != key@);
                            }
                            assert forall|i: int, j: int|
                                0 <= i < l1.len() && 0 <= j < l1.len() && l1[i] == l1[j] implies i
                                == j by {
                                lemma_nodup_remove(old(self).loading_keys(), key@);
                            }
                            assert(new.inv());
                        }
                        (e, freed)
                    },
                    None => vstd::pervasive::unreached(),
                }
            },
        }
    }

    /// Finishes an elected load that failed: the in-flight mark is
    /// cleared so the key can be tried again; every waiter observes the
    /// shared error.
    pub fn complete_load_err(&mut self, key: &String)
        requires
            old(self).inv(),
        ensures
            final(self).inv(),
            final(self).capacity() == old(self).capacity(),
            final(self).slots() == old(self).slots(),
            final(self).cached_map() == old(self).cached_map(),
            old(self).loading_keys().contains(key@) ==> final(self).loading_keys() == old(
                self,
            ).loading_keys().remove_value(key@),
            !old(self).loading_keys().contains(key@) ==> final(self).loading_keys() == old(
                self,
            ).loading_keys(),
    {
        proof {
            if old(self).loading_keys().contains(key@) {
                lemma_nodup_remove(old(self).loading_keys(), key@);
            }
        }
        self.unmark_loading(key.as_str());
        proof {
            let new = *self;
            let l1 = new.loading_keys();
            if old(self).loading_keys().contains(key@) {
                lemma_nodup_remove(old(self).loading_keys(), key@);
                assert forall|i: int|
                    0 <= i < l1.len() implies !new.cached_map().contains_key(
                    #[trigger] l1[i],
                ) by {
                    assert(l1.contains(l1[i]));
                    assert(old(self).loading_keys().contains(l1[i]));
                }
            }
            assert(new.inv());
        }
    }

    /// Grants one more handle on a live entry (a clone of an existing
    /// handle).  Refused only at the machine limit of the count.
    pub fn acquire(&mut self, e: u64) -> (r: bool)
        requires
            old(self).inv(),
            e < old(self).slots().len(),
            old(self).slots()[e as int] is Some,
        ensures
            final(self).inv(),
            final(self).capacity() == old(self).capacity(),
            final(self).cached_map() == old(self).cached_map(),
            final(self).loading_keys() == old(self).loading_keys(),
            final(self).slots().len() == old(self).slots().len(),
            r ==> Self::bumped(old(self).slots()[e as int], final(self).slots()[e as int]),
            r ==> forall|j: int|
                0 <= j < old(self).slots().len() && j != e as int ==> final(self).slots()[j] == old(
                    self,
                ).slots()[j],
            !r ==> final(self).slots() == old(self).slots() && (old(self).slots()[e as int]
                matches Some(y) && y.refs == u64::MAX),
    {
        let n = self.entries.len();
        proof {
            assert(e < n);
        }
        let idx: usize = e as usize;
        proof {
            assert(idx as int == e as int);
        }
        let slot_ref = &mut self.entries[idx];
        let slot = slot_ref.take();
        match slot {
            Some(en) => {
                if en.refs == u64::MAX {
                    self.entries[idx] = Some(en);
                    proof {
                        assert(self.entries@ =~= old(self).entries@);
                    }
                    false
                } else {
                    let Entry { key: k2, value, refs, cached } = en;
                    self.entries[idx] = Some(Entry { key: k2, value, refs: refs + 1, cached });
                    proof {
                        let new = *self;
                        assert(new.loading_keys() == old(self).loading_keys());
                        assert(new.cached_map() == old(self).cached_map());
                        assert forall|i: int|
                            0 <= i < new.loading_keys().len() implies !new.cached_map(
                        ).contains_key(#[trigger] new.loading_keys()[i]) by {
                            assert(new.loading_keys()[i] == old(self).loading_keys()[i]);
                        }
                        assert forall|k: Seq<char>|
                            #[trigger] new.cached_map().contains_key(k) implies {
                            let x = new.cached_map()[k];
                            &&& x < new.slots().len()
                            &&& (new.slots()[x as int] matches Some(y) && y.cached && y.key@ == k)
                        } by {
                            assert(old(self).cached_map().contains_key(k));
                        }
                        assert forall|j: int|
                            0 <= j < new.slots().len() implies match #[trigger] new.slots()[j] {
                            Some(y) => y.refs >= 1 && (y.cached ==> new.cached_map().contains_key(
                                y.key@,
                            ) && new.cached_map()[y.key@] == j as u64),
                            None => true,
                        } by {
                            if j != e as int {
                                assert(new.slots()[j] == old(self).slots()[j]);
                            }
                        }
                        assert(new.inv());
                    }
                    true
                }
            },
            None => vstd::pervasive::unreached(),
        }
    }

    /// Drops one handle on a live entry.  Exactly when the last
    /// reference goes — counting the cache's own — the slot dies and the
    /// value comes back, for the caller to run the store's release on;
    /// a dead slot can never be released again.
    pub fn release(&mut self, e: u64) -> (r: Option<V>)
        requires
            old(self).inv(),
            e < old(self).slots().len(),
            old(self).slots()[e as int] is Some,
        ensures
            final(self).inv(),
            final(self).capacity() == old(self).capacity(),
            final(self).loading_keys() == old(self).loading_keys(),
            final(self).slots().len() == old(self).slots().len(),
            forall|j: int|
                0 <= j < old(self).slots().len() && j != e as int ==> final(self).slots()[j] == old(
                    self,
                ).slots()[j],
            (r is Some) <==> (old(self).slots()[e as int] matches Some(y) && y.refs == 1),
            match r {
                Some(v) => (old(self).slots()[e as int] matches Some(y) && v == y.value)
                    && final(self).slots()[e as int] is None,
                None => (final(self).slots()[e as int] matches Some(y2) && old(
                    self,
                ).slots()[e as int] matches Some(y) && y2.refs == y.refs - 1 && y2.key == y.key
                    && y2.value == y.value),
            },
    {
        let n = self.entries.len();
        proof {
            assert(e < n);
        }
        let idx: usize = e as usize;
        proof {
            assert(idx as int == e as int);
        }
        let slot_ref = &mut self.entries[idx];
        let slot = slot_ref.take();
        match slot {
            Some(en) => {
                let Entry { key: k2, value, refs, cached } = en;
                if refs == 1 {
                    // The last reference is gone; a slot still in the LRU
                    // is withdrawn from it, so the map never points at a
                    // dead slot.
                    if cached {
                        let _ = lru_pop(&mut self.cache, &k2);
                    }
                    proof {
                        let new = *self;
                        let m0 = old(self).cached_map();
                        let m1 = new.cached_map();
                        assert forall|k: Seq<char>| #[trigger] m1.contains_key(k) implies {
                            let x = m1[k];
                            &&& x < new.slots().len()
                            &&& (new.slots()[x as int] matches Some(y) && y.cached && y.key@ == k)
                        } by {
                            assert(m0.contains_key(k));
                            let x = m0[k];
                            if cached {
                                assert(m1 == m0.remove(k2@));
                                assert(k != k2@);
                            }
                            if x == e {
                                assert(old(self).slots()[e as int] matches Some(y) && y.key@ == k
                                    && y.cached);
                                assert(k == k2@);
                                if !cached {
                                    assert(false);
                                } else {
                                    assert(false);
                                }
                            }
                            assert(new.slots()[x as int] == old(self).slots()[x as int]);
                        }
                        assert forall|j: int|
                            0 <= j < new.slots().len() implies match #[trigger] new.slots()[j] {
                            Some(y) => y.refs >= 1 && (y.cached ==> m1.contains_key(y.key@)
                                && m1[y.key@] == j as u64),
                            None => true,
                        } by {
                            if j != e as int {
                                assert(new.slots()[j] == old(self).slots()[j]);
                                match old(self).slots()[j] {
                                    Some(y) => {
                                        if y.cached {
                                            assert(m0.contains_key(y.key@));
                                            assert(m0[y.key@] == j as u64);
                                            if cached && y.key@ == k2@ {
                                                assert(m0[k2@] == e);
                                                assert(false);
                                            }
                                        }
                                    },
                                    None => {},
                                }
                            }
                        }
                        assert forall|i: int|
                            0 <= i < new.loading_keys().len() implies !m1.contains_key(
                            #[trigger] new.loading_keys()[i],
                        ) by {
                            assert(new.loading_keys()[i] == old(self).loading_keys()[i]);
                            assert(!m0.contains_key(old(self).loading_keys()[i]));
                            if cached {
                                assert(m1 == m0.remove(k2@));
                            }
                        }
                        assert forall|i2: int, j2: int|
                            0 <= i2 < new.loading_keys().len() && 0 <= j2 < new.loading_keys().len()
                                && new.loading_keys()[i2] == new.loading_keys()[j2] implies i2
                            == j2 by {
                            assert(new.loading_keys()[i2] == old(self).loading_keys()[i2]);
                            assert(new.loading_keys()[j2] == old(self).loading_keys()[j2]);
                        }
                        assert(new.inv());
                    }
                    Some(value)
                } else {
                    self.entries[idx] = Some(Entry { key: k2, value, refs: refs - 1, cached });
                    proof {
                        let new = *self;
                        assert(new.loading_keys() == old(self).loading_keys());
                        assert(new.cached_map() == old(self).cached_map());
                        assert forall|i: int|
                            0 <= i < new.loading_keys().len() implies !new.cached_map(
                        ).contains_key(#[trigger] new.loading_keys()[i]) by {
                            assert(new.loading_keys()[i] == old(self).loading_keys()[i]);
                        }
                        assert forall|k: Seq<char>|
                            #[trigger] new.cached_map().contains_key(k) implies {
                            let x = new.cached_map()[k];
                            &&& x < new.slots().len()
                            &&& (new.slots()[x as int] matches Some(y) && y.cached && y.key@ == k)
                        } by {
                            assert(old(self).cached_map().contains_key(k));
                        }
                        assert forall|j: int|
                            0 <= j < new.slots().len() implies match #[trigger] new.slots()[j] {
                            Some(y) => y.refs >= 1 && (y.cached ==> new.cached_map().contains_key(
                                y.key@,
                            ) && new.cached_map()[y.key@] == j as u64),
                            None => true,
                        } by {
                            if j != e as int {
                                assert(new.slots()[j] == old(self).slots()[j]);
                            }
                        }
                        assert forall|i2: int, j2: int|
                            0 <= i2 < new.loading_keys().len() && 0 <= j2 < new.loading_keys().len()
                                && new.loading_keys()[i2] == new.loading_keys()[j2] implies i2
                            == j2 by {
                            assert(new.loading_keys()[i2] == old(self).loading_keys()[i2]);
                            assert(new.loading_keys()[j2] == old(self).loading_keys()[j2]);
                        }
                        assert(new.inv());
                    }
                    None
                }
            },
            None => vstd::pervasive::unreached(),
        }
    }

    /// Withdraws a key from the cache (the store's delete): the cache's
    /// own reference is dropped.  Handles held outside survive, with the
    /// slot keeping their count; only when the cache's reference was the
    /// last does the value come back, exactly once, for the caller to run
    /// the store's release.
    pub fn remove(&mut self, key: &String) -> (r: Option<V>)
        requires
            old(self).inv(),
        ensures
            final(self).inv(),
            final(self).capacity() == old(self).capacity(),
            final(self).loading_keys() == old(self).loading_keys(),
            final(self).slots().len() == old(self).slots().len(),
            !old(self).cached_map().contains_key(key@) ==> final(self).cached_map() == old(
                self,
            ).cached_map() && final(self).slots() == old(self).slots() && r is None,
            old(self).cached_map().contains_key(key@) ==> {
                let e = old(self).cached_map()[key@];
                &&& final(self).cached_map() == old(self).cached_map().remove(key@)
                &&& forall|j: int|
                    0 <= j < old(self).slots().len() && j != e as int ==> final(self).slots()[j]
                        == old(self).slots()[j]
                &&& (match old(self).slots()[e as int] {
                    Some(en) => {
                        &&& (en.refs == 1
                            ==> r == Some(en.value) && (final(self).slots()[e as int]) is None)
                        &&& (en.refs > 1 ==> r is None && (final(self).slots()[e as int]
                            matches Some(y) && y.refs == en.refs - 1 && !y.cached && y.key
                            == en.key && y.value == en.value))
                    },
                    None => false,
                })
            },
    {
        let popped = lru_pop(&mut self.cache, key);
        match popped {
            Some(e) => {
                let n = self.entries.len();
                proof {
                    assert(e < n);
                }
                let idx: usize = e as usize;
                proof {
                    assert(idx as int == e as int);
                }
                let slot_ref = &mut self.entries[idx];
                let slot = slot_ref.take();
                match slot {
                    Some(en) => {
                        let Entry { key: k2, value, refs, cached: _ } = en;
                        let freed: Option<V>;
                        if refs == 1 {
                            freed = Some(value);
                        } else {
                            self.entries[idx] = Some(
                                Entry { key: k2, value, refs: refs - 1, cached: false },
                            );
                            freed = None;
                        }
                        proof {
                            let new = *self;
                            let m0 = old(self).cached_map();
                            let m1 = new.cached_map();
                            assert(m1 == m0.remove(key@));
                            assert forall|k: Seq<char>| #[trigger] m1.contains_key(k) implies {
                                let x = m1[k];
                                &&& x < new.slots().len()
                                &&& (new.slots()[x as int] matches Some(y) && y.cached && y.key@
                                    == k)
                            } by {
                                assert(m0.contains_key(k));
                                assert(k != key@);
                                let x = m0[k];
                                if x == e {
                                    assert(old(self).slots()[e as int] matches Some(y) && y.key@
                                        == k);
                                    assert(old(self).slots()[e as int] matches Some(y) && y.key@
                                        == key@);
                                    assert(false);
                                }
                                assert(new.slots()[x as int] == old(self).slots()[x as int]);
                            }
                            assert forall|j: int|
                                0 <= j < new.slots().len() implies match #[trigger] new.slots()[j] {
                                Some(y) => y.refs >= 1 && (y.cached ==> m1.contains_key(y.key@)
                                    && m1[y.key@] == j as u64),
                                None => true,
                            } by {
                                if j != e as int {
                                    assert(new.slots()[j] == old(self).slots()[j]);
                                    match old(self).slots()[j] {
                                        Some(y) => {
                                            if y.cached {
                                                assert(m0.contains_key(y.key@));
                                                assert(m0[y.key@] == j as u64);
                                                if y.key@ == key@ {
                                                    assert(m0[key@] == e);
                                                    assert(false);
                                                }
                                            }
                                        },
                                        None => {},
                                    }
                                }
                            }
                            assert forall|i: int|
                                0 <= i < new.loading_keys().len() implies !m1.contains_key(
                                #[trigger] new.loading_keys()[i],
                            ) by {
                                assert(new.loading_keys()[i] == old(self).loading_keys()[i]);
                                assert(!m0.contains_key(old(self).loading_keys()[i]));
                            }
                            assert forall|i2: int, j2: int|
                                0 <= i2 < new.loading_keys().len() && 0 <= j2 < new.loading_keys().len()
                                    && new.loading_keys()[i2] == new.loading_keys()[j2] implies i2
                                == j2 by {
                                assert(new.loading_keys()[i2] == old(self).loading_keys()[i2]);
                                assert(new.loading_keys()[j2] == old(self).loading_keys()[j2]);
                            }
                            assert(new.inv());
                        }
                        freed
                    },
                    None => vstd::pervasive::unreached(),
                }
            },
            None => {
                proof {
                    let new = *self;
                    assert(new.cached_map() == old(self).cached_map());
                    assert forall|i: int|
                        0 <= i < new.loading_keys().len() implies !new.cached_map().contains_key(
                        #[trigger] new.loading_keys()[i],
                    ) by {
                        assert(new.loading_keys()[i] == old(self).loading_keys()[i]);
                    }
                    assert forall|i2: int, j2: int|
                        0 <= i2 < new.loading_keys().len() && 0 <= j2 < new.loading_keys().len()
                            && new.loading_keys()[i2] == new.loading_keys()[j2] implies i2
                        == j2 by {
                        assert(new.loading_keys()[i2] == old(self).loading_keys()[i2]);
                        assert(new.loading_keys()[j2] == old(self).loading_keys()[j2]);
                    }
                    assert forall|k: Seq<char>|
                        #[trigger] new.cached_map().contains_key(k) implies {
                        let x = new.cached_map()[k];
                        &&& x < new.slots().len()
                        &&& (new.slots()[x as int] matches Some(y) && y.cached && y.key@ == k)
                    } by {
                        assert(old(self).cached_map().contains_key(k));
                    }
                    assert(new.inv());
                }
                None
            },
        }
    }

    /// At any instant the number of loads in flight for a single key is
    /// at most one: two in-flight marks that carry the same key are the
    /// same mark.
    pub proof fn lemma_single_flight(&self, i: int, j: int)
        requires
            self.inv(),
            0 <= i < self.loading_keys().len(),
            0 <= j < self.loading_keys().len(),
            self.loading_keys()[i] == self.loading_keys()[j],
        ensures
            i == j,
    {
    }

    /// Removes a key from the in-flight list.
    fn unmark_loading(&mut self, key: &str)
        ensures
            final(self).entries == old(self).entries,
            final(self).cache == old(self).cache,
            final(self).loading_keys() == old(self).loading_keys().remove_value(key@)
                || final(self).loading_keys() == old(self).loading_keys(),
            !old(self).loading_keys().contains(key@) ==> final(self).loading_keys() == old(
                self,
            ).loading_keys(),
            old(self).loading_keys().contains(key@) ==> final(self).loading_keys() == old(
                self,
            ).loading_keys().remove_value(key@),
    {
        let ghost orig = self.loading@;
        let n = self.loading.len();
        let mut i: usize = 0;
        while i < n
            invariant
                i <= n,
                n == self.loading@.len(),
                self.loading@ == orig,
                self.entries == old(self).entries,
                self.cache == old(self).cache,
                orig == old(self).loading@,
                forall|j: int| 0 <= j < i ==> orig[j]@ != key@,
            decreases n - i,
        {
            if str_eq(self.loading[i].as_str(), key) {
                self.loading.remove(i);
                proof {
                    let lv = old(self).loading_keys();
                    assert(lv[i as int] == orig[i as int]@);
                    assert forall|j: int| 0 <= j < i implies lv[j] != key@ by {
                        assert(lv[j] == orig[j]@);
                    }
                    lv.index_of_first_ensures(key@);
                    assert(lv.index_of_first(key@) == Some(i as int));
                    assert(self.loading@ =~= orig.remove(i as int));
                    assert(self.loading_keys() =~= lv.remove(i as int));
                    assert(lv.remove_value(key@) == lv.remove(i as int));
                }
                return ;
            }
            proof {
                assert(orig[i as int]@ == self.loading_keys()[i as int]);
            }
            i += 1;
        }
        proof {
            let lv = old(self).loading_keys();
            assert forall|j: int| 0 <= j < lv.len() implies lv[j] != key@ by {
                assert(lv[j] == orig[j]@);
            }
            assert(!lv.contains(key@));
        }
    }
}

} // verus!
