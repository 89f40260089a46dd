use crate::key::{key_of, lemma_msaa_distinguishes_keys, PipelineKey};
use crate::mesh::Topology;
use vstd::prelude::*;

verus! {

/// Names one specialized pipeline: the position of its key in the cache.
#[derive(Clone, Copy, Debug, PartialEq, Eq, Structural, Hash)]
pub struct PipelineHandle(pub usize);

/// The answer to a specialization request.
#[derive(Clone, Copy, Debug, PartialEq, Eq, Structural)]
pub struct Specialization {
    /// The pipeline for the key.
    pub handle: PipelineHandle,
    /// Whether the pipeline is new and has yet to be built.
    pub built: bool,
}

/// The position of `key` in `keys`.
pub open spec fn handle_of(keys: Seq<PipelineKey>, key: PipelineKey) -> int {
    choose|i: int| 0 <= i < keys.len() && keys[i] == key
}

/// The keys after a request for `key`, and the handle it answers: a known
/// key keeps its handle, a new one is appended and gets the next handle.
pub open spec fn specialized(keys: Seq<PipelineKey>, key: PipelineKey) -> (Seq<PipelineKey>, int) {
    if keys.contains(key) {
        (keys, handle_of(keys, key))
    } else {
        (keys.push(key), keys.len() as int)
    }
}

/// The pipelines specialized so far, one per distinct key, in the order in
/// which their keys were first asked for.
pub struct PipelineCache {
    keys: Vec<PipelineKey>,
}

impl PipelineCache {
    /// The keys of the cached pipelines; handle `i` answers key `i`.
    pub closed spec fn keys(&self) -> Seq<PipelineKey> {
        self.keys@
    }

    #[verifier::type_invariant]
    spec fn distinct_keys(&self) -> bool {
        self.keys@.no_duplicates()
    }

    /// A cache with no pipeline.
    pub fn new() -> (r: Self)
        ensures
            r.keys() == Seq::<PipelineKey>::empty(),
    {
        PipelineCache { keys: Vec::new() }
    }

    /// Number of pipelines specialized so far.
    pub fn len(&self) -> (r: usize)
        ensures
            r == self.keys().len(),
    {
        self.keys.len()
    }

    /// The key that a handle was specialized for, if the cache issued it.
    pub fn key(&self, handle: PipelineHandle) -> (r: Option<PipelineKey>)
        ensures
            r == (if handle.0 < self.keys().len() {
                Some(self.keys()[handle.0 as int])
            } else {
                None
            }),
    {
        if handle.0 < self.keys.len() {
            Some(self.keys[handle.0])
        } else {
            None
        }
    }

    /// The handle for `key`: the cached one if the key was asked for
    /// before, else a new one, which the caller builds.
    pub fn specialize(&mut self, key: PipelineKey) -> (r: Specialization)
        ensures
            (final(self).keys(), r.handle.0 as int) == specialized(old(self).keys(), key),
            r.built == !old(self).keys().contains(key),
            final(self).keys().no_duplicates(),
    {
        proof {
            use_type_invariant(&*self);
        }
        let mut grown: Vec<PipelineKey> = Vec::new();
        let mut i: usize = 0;
        while i < self.keys.len()
            invariant
                i <= self.keys@.len(),
                grown@ == self.keys@.take(i as int),
                self.keys@.no_duplicates(),
                forall|j: int| 0 <= j < i ==> self.keys@[j] != key,
            decreases self.keys@.len() - i,
        {
            if self.keys[i] == key {
                proof {
                    let h = handle_of(self.keys@, key);
                    assert(self.keys@.contains(key)) by {
                        assert(self.keys@[i as int] == key);
                    }
                    assert(h == i) by {
                        assert(0 <= h < self.keys@.len() && self.keys@[h] == key);
                    }
                }
                return Specialization { handle: PipelineHandle(i), built: false };
            }
            grown.push(self.keys[i]);
            i = i + 1;
            assert(grown@ =~= self.keys@.take(i as int));
        }
        let n = self.keys.len();
        grown.push(key);
        proof {
            assert(self.keys@.take(n as int) =~= self.keys@);
            assert(!self.keys@.contains(key));
        }
        *self = PipelineCache { keys: grown };
        Specialization { handle: PipelineHandle(n), built: true }
    }
}

/// Asking twice for one key answers one handle and adds no pipeline the
/// second time; asking for two different keys answers two different
/// handles.
pub proof fn lemma_cache_memoizes(keys: Seq<PipelineKey>, k1: PipelineKey, k2: PipelineKey)
    requires
        keys.no_duplicates(),
    ensures
        specialized(specialized(keys, k1).0, k1) == specialized(keys, k1),
        k1 != k2 ==> specialized(specialized(keys, k1).0, k2).1 != specialized(keys, k1).1,
{
    let (ks1, h1) = specialized(keys, k1);
    assert(ks1.contains(k1) && ks1.no_duplicates()) by {
        if !keys.contains(k1) {
            assert(ks1[keys.len() as int] == k1);
        }
    }
    let h = handle_of(ks1, k1);
    assert(0 <= h < ks1.len() && ks1[h] == k1);
    if keys.contains(k1) {
        assert(0 <= h1 < keys.len() && keys[h1] == k1);
    } else {
        assert(ks1[keys.len() as int] == k1);
    }
    assert(h == h1);
    if k1 != k2 {
        let (ks2, h2) = specialized(ks1, k2);
        if ks1.contains(k2) {
            assert(0 <= h2 < ks1.len() && ks1[h2] == k2);
        }
    }
}

/// With one topology, two different multisample counts from 1 to 64 are
/// answered different handles.
pub proof fn lemma_msaa_distinct_handles(keys: Seq<PipelineKey>, s1: u32, s2: u32, t: Topology)
    requires
        keys.no_duplicates(),
        1 <= s1 <= 64,
        1 <= s2 <= 64,
        s1 != s2,
    ensures
        specialized(specialized(keys, key_of(s1, t)).0, key_of(s2, t)).1 != specialized(
            keys,
            key_of(s1, t),
        ).1,
{
    lemma_msaa_distinguishes_keys(s1, s2, t);
    lemma_cache_memoizes(keys, key_of(s1, t), key_of(s2, t));
}

} // verus!
