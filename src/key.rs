use crate::mesh::Topology;
use bevy::pbr::MeshPipelineKey;
use bevy::render::render_resource::PrimitiveTopology;
use vstd::prelude::*;

verus! {

/// The render state a specialized pipeline is built for: the multisample
/// count in the top six bits, the primitive topology in the three below.
#[derive(Clone, Copy, Debug, PartialEq, Eq, Structural, Hash)]
pub struct PipelineKey {
    pub bits: u32,
}

/// Key bits for a multisample count: the count less one, in bits 26 to 31.
pub open spec fn msaa_bits(samples: u32) -> u32 {
    (((samples - 1) as u32) & 0x3f) << 26u32
}

/// The number that graphics APIs give a topology.
pub open spec fn topology_index(t: Topology) -> u32 {
    match t {
        Topology::PointList => 0,
        Topology::LineList => 1,
        Topology::LineStrip => 2,
        Topology::TriangleList => 3,
        Topology::TriangleStrip => 4,
    }
}

/// Key bits for a topology: its number, in bits 23 to 25.
pub open spec fn topology_bits(t: Topology) -> u32 {
    (topology_index(t) & 0x7) << 23u32
}

/// The key of a pipeline for `samples` multisamples and topology `t`.
pub open spec fn key_of(samples: u32, t: Topology) -> PipelineKey {
    PipelineKey { bits: msaa_bits(samples) | topology_bits(t) }
}

/// Relies on bevy_pbr's `MeshPipelineKey::from_msaa_samples`, which keeps the
/// sample count less one in the top six bits and panics on a count of zero.
#[verifier::external_body]
fn msaa_key_bits(samples: u32) -> (r: u32)
    requires
        samples >= 1,
    ensures
        r == msaa_bits(samples),
{
    MeshPipelineKey::from_msaa_samples(samples).bits()
}

/// Relies on bevy_pbr's `MeshPipelineKey::from_primitive_topology`, which
/// keeps the topology's number in the three bits below the sample count.
#[verifier::external_body]
fn topology_key_bits(t: Topology) -> (r: u32)
    ensures
        r == topology_bits(t),
{
    let topology = match t {
        Topology::PointList => PrimitiveTopology::PointList,
        Topology::LineList => PrimitiveTopology::LineList,
        Topology::LineStrip => PrimitiveTopology::LineStrip,
        Topology::TriangleList => PrimitiveTopology::TriangleList,
        Topology::TriangleStrip => PrimitiveTopology::TriangleStrip,
    };
    MeshPipelineKey::from_primitive_topology(topology).bits()
}

/// The specialization key for a multisample count and a mesh topology.
pub fn specialization_key(msaa_samples: u32, topology: Topology) -> (r: PipelineKey)
    requires
        msaa_samples >= 1,
    ensures
        r == key_of(msaa_samples, topology),
{
    PipelineKey { bits: msaa_key_bits(msaa_samples) | topology_key_bits(topology) }
}

/// Two multisample counts from 1 to 64 that differ give different keys,
/// whatever the topology.
pub proof fn lemma_msaa_distinguishes_keys(s1: u32, s2: u32, t: Topology)
    requires
        1 <= s1 <= 64,
        1 <= s2 <= 64,
        s1 != s2,
    ensures
        key_of(s1, t) != key_of(s2, t),
{
    let a = (s1 - 1) as u32;
    let b = (s2 - 1) as u32;
    let x = topology_index(t);
    assert((a & 0x3f) << 26u32 | (x & 0x7) << 23u32 != (b & 0x3f) << 26u32 | (x & 0x7) << 23u32)
        by (bit_vector)
        requires
            a < 64,
            b < 64,
            a != b,
    ;
}

} // verus!
