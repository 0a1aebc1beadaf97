//! A hash map with a soft capacity: once as many keys are stored, each
//! plain insert of a new key first evicts one existing key, chosen at
//! random by a generator seeded per instance. A parallel key list makes
//! the victim choice and the map's model checkable.

use vstd::prelude::*;
use std::collections::HashMap;
use rand::Rng;
use rand::SeedableRng;

verus! {

#[verifier::external_type_specification]
#[verifier::external_body]
pub struct ExSmallRng(rand::rngs::SmallRng);

/// Relies on `rand::rngs::SmallRng::seed_from_u64`: a small generator
/// seeded per instance with a fixed word, so the eviction order of one
/// map is reproducible.
#[verifier::external_body]
fn small_rng_seeded(seed: u64) -> rand::rngs::SmallRng {
    rand::rngs::SmallRng::seed_from_u64(seed)
}

/// Relies on `rand::Rng::random_range`: a value drawn from a non-empty
/// range lies in it.
#[verifier::external_body]
fn random_below(rng: &mut rand::rngs::SmallRng, n: u64) -> (r: u64)
    requires
        n > 0,
    ensures
        r < n,
{
    rng.random_range(0..n)
}

proof fn lemma_push_contains(s: Seq<u64>, x: u64, k: u64)
    ensures
        s.push(x).contains(k) <==> (s.contains(k) || k == x),
{
    if s.contains(k) {
        let i = choose|i: int| 0 <= i < s.len() && s[i] == k;
        assert(s.push(x)[i] == k);
    }
    if k == x {
        assert(s.push(x)[s.len() as int] == k);
    }
    if s.push(x).contains(k) && k != x {
        let i = choose|i: int| 0 <= i < s.push(x).len() && s.push(x)[i] == k;
        assert(i < s.len());
        assert(s[i] == k);
    }
}

proof fn lemma_push_no_dup(s: Seq<u64>, x: u64)
    requires
        s.no_duplicates(),
        !s.contains(x),
    ensures
        s.push(x).no_duplicates(),
{
    let p = s.push(x);
    assert forall|i: int, j: int|
        0 <= i < p.len() && 0 <= j < p.len() && i != j implies p[i] != p[j] by {
        if i < s.len() && j < s.len() {
        } else if i == s.len() {
            assert(p[i] == x);
            assert(p[j] == s[j]);
        } else {
            assert(p[j] == x);
            assert(p[i] == s[i]);
        }
    }
}

proof fn lemma_remove_contains(s: Seq<u64>, idx: int, k: u64)
    requires
        0 <= idx < s.len(),
        s.no_duplicates(),
    ensures
        s.remove(idx).contains(k) <==> (s.contains(k) && k != s[idx]),
        s.remove(idx).no_duplicates(),
{
    let r = s.remove(idx);
    if r.contains(k) {
        let j = choose|j: int| 0 <= j < r.len() && r[j] == k;
        if j < idx {
            assert(s[j] == k);
        } else {
            assert(s[j + 1] == k);
        }
    }
    if s.contains(k) && k != s[idx] {
        let j = choose|j: int| 0 <= j < s.len() && s[j] == k;
        if j < idx {
            assert(r[j] == k);
        } else {
            assert(j > idx);
            assert(r[j - 1] == k);
        }
    }
    assert forall|i: int, j: int|
        0 <= i < r.len() && 0 <= j < r.len() && i != j implies r[i] != r[j] by {
        let si = if i < idx { i } else { i + 1 };
        let sj = if j < idx { j } else { j + 1 };
        assert(r[i] == s[si]);
        assert(r[j] == s[sj]);
    }
}

/// A map from 64-bit keys to `V` with a soft capacity.
pub struct FixedSizeHashMap<V> {
    map: HashMap<u64, V>,
    keys: Vec<u64>,
    cap: usize,
    rng: rand::rngs::SmallRng,
}

impl<V> FixedSizeHashMap<V> {
    /// The stored mapping.
    pub closed spec fn view(self) -> Map<u64, V> {
        self.map@
    }

    pub closed spec fn spec_cap(self) -> usize {
        self.cap
    }

    /// How many keys are stored.
    pub closed spec fn spec_count(self) -> nat {
        self.keys@.len()
    }

    /// The key list carries exactly the map's keys, each once.
    pub closed spec fn inv(self) -> bool {
        &&& self.cap >= 1
        &&& self.keys@.no_duplicates()
        &&& forall|k: u64| self.map@.contains_key(k) <==> self.keys@.contains(k)
    }

    pub fn new(capacity: usize) -> (r: Self)
        requires
            capacity >= 1,
        ensures
            r.inv(),
            r@ == Map::<u64, V>::empty(),
            r.spec_count() == 0,
            r.spec_cap() == capacity,
    {
        FixedSizeHashMap {
            map: HashMap::new(),
            keys: Vec::new(),
            cap: capacity,
            rng: small_rng_seeded(0x9e3779b97f4a7c15),
        }
    }

    /// Stores `key -> value`. Overwriting an existing key and filling a
    /// free slot keep everything else; a new key at capacity first costs
    /// one existing key, chosen at random.
    pub fn insert(&mut self, key: u64, value: V)
        requires
            old(self).inv(),
        ensures
            final(self).inv(),
            final(self).spec_cap() == old(self).spec_cap(),
            final(self)@.contains_pair(key, value),
            old(self)@.contains_key(key) ==> {
                &&& final(self)@ == old(self)@.insert(key, value)
                &&& final(self).spec_count() == old(self).spec_count()
            },
            !old(self)@.contains_key(key) && old(self).spec_count() < old(self).spec_cap() ==> {
                &&& final(self)@ == old(self)@.insert(key, value)
                &&& final(self).spec_count() == old(self).spec_count() + 1
            },
            !old(self)@.contains_key(key) && old(self).spec_count() >= old(self).spec_cap() ==> {
                &&& final(self).spec_count() == old(self).spec_count()
                &&& exists|e: u64|
                    (#[trigger] old(self)@.contains_key(e)) && e != key && final(self)@
                        == old(self)@.remove(e).insert(key, value)
            },
    {
        let had = self.map.contains_key(&key);
        if !had {
            if self.keys.len() >= self.cap {
                self.evict_random_entry();
            }
            let ghost k1 = self.keys@;
            let ghost m1 = self.map@;
            self.keys.push(key);
            self.map.insert(key, value);
            proof {
                assert(!k1.contains(key));
                lemma_push_no_dup(k1, key);
                assert forall|k: u64|
                    self.map@.contains_key(k) <==> self.keys@.contains(k) by {
                    lemma_push_contains(k1, key, k);
                }
            }
        } else {
            self.map.insert(key, value);
        }
    }

    /// Evicts one stored key, drawn at random; asks that one exists.
    fn evict_random_entry(&mut self)
        requires
            old(self).inv(),
            old(self).spec_count() >= 1,
        ensures
            final(self).inv(),
            final(self).spec_cap() == old(self).spec_cap(),
            final(self).spec_count() == old(self).spec_count() - 1,
            exists|e: u64|
                (#[trigger] old(self)@.contains_key(e)) && final(self)@ == old(self)@.remove(e),
    {
        let n = self.keys.len();
        let idx = random_below(&mut self.rng, n as u64) as usize;
        let victim = self.keys[idx];
        let ghost old_keys = self.keys@;
        let ghost old_map = self.map@;
        self.map.remove(&victim);
        self.keys.remove(idx);
        proof {
            assert(old_keys.contains(victim));
            assert forall|k: u64|
                self.map@.contains_key(k) <==> self.keys@.contains(k) by {
                lemma_remove_contains(old_keys, idx as int, k);
            }
            lemma_remove_contains(old_keys, idx as int, victim);
            assert(self@ =~= old(self)@.remove(victim));
        }
    }

    /// The stored value for a key, if one is there.
    pub fn get(&self, key: u64) -> (r: Option<&V>)
        ensures
            match r {
                Some(v) => self@.contains_key(key) && *v == self@[key],
                None => !self@.contains_key(key),
            },
    {
        self.map.get(&key)
    }

    /// How many keys are stored.
    pub fn get_size(&self) -> (r: usize)
        requires
            self.inv(),
        ensures
            r == self.spec_count(),
    {
        self.keys.len()
    }

    /// The value under a key, writing (and handing back) a given default
    /// first when the key is absent. Never evicts, so a fresh key may
    /// stretch the map one past its capacity, as a mutable-handle lookup
    /// must.
    pub fn entry(&mut self, key: u64, dflt: V) -> (r: V) where V: Copy
        requires
            old(self).inv(),
        ensures
            final(self).inv(),
            final(self).spec_cap() == old(self).spec_cap(),
            old(self)@.contains_key(key) ==> {
                &&& final(self)@ == old(self)@
                &&& final(self).spec_count() == old(self).spec_count()
                &&& r == old(self)@[key]
            },
            !old(self)@.contains_key(key) ==> {
                &&& final(self)@ == old(self)@.insert(key, dflt)
                &&& final(self).spec_count() == old(self).spec_count() + 1
                &&& r == dflt
            },
    {
        let had = self.map.contains_key(&key);
        if had {
            let r = *self.map.get(&key).unwrap();
            r
        } else {
            let ghost k1 = self.keys@;
            self.keys.push(key);
            self.map.insert(key, dflt);
            proof {
                assert(!k1.contains(key));
                lemma_push_no_dup(k1, key);
                assert forall|k: u64|
                    self.map@.contains_key(k) <==> self.keys@.contains(k) by {
                    lemma_push_contains(k1, key, k);
                }
            }
            dflt
        }
    }
}

} // verus!
