use crate::cache::{handle_of, specialized, PipelineCache, PipelineHandle};
use crate::key::{key_of, specialization_key, PipelineKey};
use crate::mesh::Topology;
use vstd::prelude::*;

verus! {

/// One draw of a view's render phase: which mesh instance, with which
/// specialized pipeline.
#[derive(Clone, Copy, Debug, PartialEq, Eq, Structural)]
pub struct RenderItem {
    /// Position of the instance in the list handed to the queue step.
    pub instance: usize,
    pub pipeline: PipelineHandle,
}

/// The cache keys and the render items after queueing `meshes` for one
/// view: each instance whose mesh is uploaded (`Some` of its topology), in
/// order, gets the pipeline for its key; the others are skipped.
pub open spec fn queued(keys: Seq<PipelineKey>, samples: u32, meshes: Seq<Option<Topology>>) -> (
    Seq<PipelineKey>,
    Seq<RenderItem>,
)
    decreases meshes.len(),
{
    if meshes.len() == 0 {
        (keys, Seq::empty())
    } else {
        let (ks, items) = queued(keys, samples, meshes.drop_last());
        match meshes.last() {
            Some(t) => {
                let (ks2, h) = specialized(ks, key_of(samples, t));
                (
                    ks2,
                    items.push(
                        RenderItem {
                            instance: (meshes.len() - 1) as usize,
                            pipeline: PipelineHandle(h as usize),
                        },
                    ),
                )
            },
            None => (ks, items),
        }
    }
}

/// Queues the tagged mesh instances of one view. Entry `i` of `meshes` is
/// the topology of instance `i`'s mesh when its render resources are
/// uploaded, and `None` when they are not yet: that instance is skipped
/// this frame.
pub fn queue_view(cache: &mut PipelineCache, msaa_samples: u32, meshes: &Vec<Option<Topology>>) -> (r:
    Vec<RenderItem>)
    requires
        msaa_samples >= 1,
    ensures
        (final(cache).keys(), r@) == queued(old(cache).keys(), msaa_samples, meshes@),
{
    let mut items: Vec<RenderItem> = Vec::new();
    let mut i: usize = 0;
    while i < meshes.len()
        invariant
            i <= meshes@.len(),
            msaa_samples >= 1,
            (cache.keys(), items@) == queued(old(cache).keys(), msaa_samples, meshes@.take(i as int)),
        decreases meshes@.len() - i,
    {
        proof {
            assert(meshes@.take(i + 1).drop_last() =~= meshes@.take(i as int));
        }
        match meshes[i] {
            Some(topology) => {
                let key = specialization_key(msaa_samples, topology);
                let s = cache.specialize(key);
                items.push(RenderItem { instance: i, pipeline: s.handle });
            },
            None => {},
        }
        i = i + 1;
    }
    proof {
        assert(meshes@.take(meshes@.len() as int) =~= meshes@);
    }
    items
}

/// An instance whose mesh is not uploaded yields no render item: when no
/// mesh is uploaded, queueing adds nothing and leaves the cache as it was.
pub proof fn lemma_unready_meshes_skipped(
    keys: Seq<PipelineKey>,
    samples: u32,
    meshes: Seq<Option<Topology>>,
)
    requires
        forall|i: int| 0 <= i < meshes.len() ==> meshes[i] is None,
    ensures
        queued(keys, samples, meshes) == (keys, Seq::<RenderItem>::empty()),
    decreases meshes.len(),
{
    if meshes.len() > 0 {
        lemma_unready_meshes_skipped(keys, samples, meshes.drop_last());
    }
}

/// `a` is the start of `b`.
pub open spec fn starts(a: Seq<PipelineKey>, b: Seq<PipelineKey>) -> bool {
    a.len() <= b.len() && forall|i: int| 0 <= i < a.len() ==> a[i] == b[i]
}

proof fn lemma_handle_unique(keys: Seq<PipelineKey>, key: PipelineKey, h: int)
    requires
        keys.no_duplicates(),
        0 <= h < keys.len(),
        keys[h] == key,
    ensures
        keys.contains(key),
        handle_of(keys, key) == h,
{
    let c = handle_of(keys, key);
    assert(0 <= c < keys.len() && keys[c] == key);
}

proof fn lemma_queued_grows(keys: Seq<PipelineKey>, samples: u32, meshes: Seq<Option<Topology>>)
    requires
        keys.no_duplicates(),
    ensures
        queued(keys, samples, meshes).0.no_duplicates(),
        starts(keys, queued(keys, samples, meshes).0),
    decreases meshes.len(),
{
    if meshes.len() > 0 {
        let rest = meshes.drop_last();
        lemma_queued_grows(keys, samples, rest);
        let ka = queued(keys, samples, rest).0;
        match meshes.last() {
            Some(t) => {
                let key = key_of(samples, t);
                if !ka.contains(key) {
                    let k1 = ka.push(key);
                    assert forall|i: int, j: int|
                        0 <= i < k1.len() && 0 <= j < k1.len() && i != j implies k1[i]
                        != k1[j] by {
                        if i == ka.len() {
                            assert(ka[j] == k1[j]);
                        } else if j == ka.len() {
                            assert(ka[i] == k1[i]);
                        }
                    }
                }
            },
            None => {},
        }
    }
}

/// Queueing the same meshes again from any cache that starts with the
/// keys a first queueing left hands out the same items and adds no key.
proof fn lemma_queued_requeue(
    keys: Seq<PipelineKey>,
    samples: u32,
    meshes: Seq<Option<Topology>>,
    grown: Seq<PipelineKey>,
)
    requires
        keys.no_duplicates(),
        grown.no_duplicates(),
        starts(queued(keys, samples, meshes).0, grown),
    ensures
        queued(grown, samples, meshes) == (grown, queued(keys, samples, meshes).1),
    decreases meshes.len(),
{
    if meshes.len() > 0 {
        let rest = meshes.drop_last();
        lemma_queued_grows(keys, samples, rest);
        let ka = queued(keys, samples, rest).0;
        let k1 = queued(keys, samples, meshes).0;
        match meshes.last() {
            Some(t) => {
                let key = key_of(samples, t);
                let h = specialized(ka, key).1;
                if ka.contains(key) {
                    let c = handle_of(ka, key);
                    assert(0 <= c < ka.len() && ka[c] == key);
                } else {
                    assert(k1[ka.len() as int] == key);
                }
                assert(0 <= h < k1.len() && k1[h] == key);
                assert(starts(ka, k1));
                lemma_queued_requeue(keys, samples, rest, grown);
                assert(grown[h] == k1[h]);
                lemma_handle_unique(grown, key, h);
            },
            None => {
                lemma_queued_requeue(keys, samples, rest, grown);
            },
        }
    }
}

/// A second view that queues the same instances from the cache the first
/// left gets the same render items and builds no new pipeline.
pub proof fn lemma_second_view_reuses_pipelines(
    keys: Seq<PipelineKey>,
    samples: u32,
    meshes: Seq<Option<Topology>>,
)
    requires
        keys.no_duplicates(),
    ensures
        queued(queued(keys, samples, meshes).0, samples, meshes) == queued(keys, samples, meshes),
{
    let k1 = queued(keys, samples, meshes).0;
    lemma_queued_grows(keys, samples, meshes);
    assert(starts(k1, k1));
    lemma_queued_requeue(keys, samples, meshes, k1);
}

} // verus!
