use bevy::render::render_resource::VertexFormat;
use vstd::prelude::*;

verus! {

/// Shader input slot of the vertex position.
pub const POSITION_LOCATION: u32 = 0;

/// Shader input slot of the vertex normal.
pub const NORMAL_LOCATION: u32 = 1;

/// Shader input slot of the texture coordinates.
pub const UV_LOCATION: u32 = 2;

/// Shader input slot of the barycentric corner.
pub const BARYCENTRIC_LOCATION: u32 = 3;

/// Formats of the attributes in the wireframe vertex buffer.
#[derive(Clone, Copy, Debug, PartialEq, Eq, Structural)]
pub enum AttributeFormat {
    /// Two 32-bit floats.
    Float32x2,
    /// Three 32-bit floats.
    Float32x3,
}

/// Bytes taken by one value of a format.
pub open spec fn format_size(f: AttributeFormat) -> nat {
    match f {
        AttributeFormat::Float32x2 => 8,
        AttributeFormat::Float32x3 => 12,
    }
}

/// Relies on wgpu's `VertexFormat::size`: the byte size of a vertex format,
/// 8 for `Float32x2` and 12 for `Float32x3`.
#[verifier::external_body]
fn vertex_format_size(f: AttributeFormat) -> (r: u64)
    ensures
        r == format_size(f),
{
    let format = match f {
        AttributeFormat::Float32x2 => VertexFormat::Float32x2,
        AttributeFormat::Float32x3 => VertexFormat::Float32x3,
    };
    format.size()
}

/// One attribute of a vertex buffer: its format, its byte offset within a
/// vertex, and the shader input slot that reads it.
#[derive(Clone, Copy, Debug, PartialEq, Eq, Structural)]
pub struct VertexAttribute {
    pub format: AttributeFormat,
    pub offset: u64,
    pub shader_location: u32,
}

/// A vertex buffer layout: bytes from one vertex to the next, and the
/// attributes packed in each vertex.
#[derive(Clone, Debug)]
pub struct VertexLayout {
    pub array_stride: u64,
    pub attributes: Vec<VertexAttribute>,
}

/// Bytes taken by the first `i` slots.
pub open spec fn sizes_before(slots: Seq<(AttributeFormat, u32)>, i: int) -> nat
    decreases i,
{
    if i <= 0 {
        0
    } else {
        sizes_before(slots, i - 1) + format_size(slots[i - 1].0)
    }
}

/// Attribute `i` of a layout packed from `slots`: right after the ones
/// before it.
pub open spec fn packed_attribute(slots: Seq<(AttributeFormat, u32)>, i: int) -> VertexAttribute {
    VertexAttribute {
        format: slots[i].0,
        offset: sizes_before(slots, i) as u64,
        shader_location: slots[i].1,
    }
}

proof fn lemma_sizes_monotone(slots: Seq<(AttributeFormat, u32)>, i: int, j: int)
    requires
        0 <= i <= j,
    ensures
        sizes_before(slots, i) <= sizes_before(slots, j),
    decreases j - i,
{
    if i < j {
        lemma_sizes_monotone(slots, i, j - 1);
    }
}

/// Packs attributes one after another in the order given, each at the sum
/// of the sizes before it; the stride is the sum of all sizes.
pub fn pack_attributes(slots: &Vec<(AttributeFormat, u32)>) -> (r: VertexLayout)
    requires
        sizes_before(slots@, slots@.len() as int) <= u64::MAX,
    ensures
        r.array_stride == sizes_before(slots@, slots@.len() as int),
        r.attributes@.len() == slots@.len(),
        forall|i: int|
            0 <= i < slots@.len() ==> r.attributes@[i] == packed_attribute(slots@, i),
{
    let mut attributes: Vec<VertexAttribute> = Vec::new();
    let mut cursor: u64 = 0;
    let mut i: usize = 0;
    while i < slots.len()
        invariant
            i <= slots@.len(),
            cursor == sizes_before(slots@, i as int),
            sizes_before(slots@, slots@.len() as int) <= u64::MAX,
            attributes@.len() == i,
            forall|j: int| 0 <= j < i ==> attributes@[j] == packed_attribute(slots@, j),
        decreases slots@.len() - i,
    {
        let (format, shader_location) = slots[i];
        attributes.push(VertexAttribute { format, offset: cursor, shader_location });
        proof {
            lemma_sizes_monotone(slots@, i + 1, slots@.len() as int);
        }
        cursor = cursor + vertex_format_size(format);
        i = i + 1;
    }
    VertexLayout { array_stride: cursor, attributes }
}

/// The attributes of the wireframe vertex buffer, in memory order.
pub open spec fn barycentric_layout_attributes() -> Seq<VertexAttribute> {
    seq![
        VertexAttribute { format: AttributeFormat::Float32x3, offset: 0, shader_location: 3 },
        VertexAttribute { format: AttributeFormat::Float32x3, offset: 12, shader_location: 1 },
        VertexAttribute { format: AttributeFormat::Float32x3, offset: 24, shader_location: 0 },
        VertexAttribute { format: AttributeFormat::Float32x2, offset: 36, shader_location: 2 },
    ]
}

/// The vertex buffer layout read by the wireframe shaders: barycentric,
/// normal, position and uv, packed in that order into 44 bytes.
pub fn barycentric_vertex_layout() -> (r: VertexLayout)
    ensures
        r.array_stride == 44,
        r.attributes@ == barycentric_layout_attributes(),
{
    let slots: Vec<(AttributeFormat, u32)> = vec![
        (AttributeFormat::Float32x3, BARYCENTRIC_LOCATION),
        (AttributeFormat::Float32x3, NORMAL_LOCATION),
        (AttributeFormat::Float32x3, POSITION_LOCATION),
        (AttributeFormat::Float32x2, UV_LOCATION),
    ];
    assert(sizes_before(slots@, 4) == 44) by {
        reveal_with_fuel(sizes_before, 5);
    }
    let r = pack_attributes(&slots);
    assert(r.attributes@ =~= barycentric_layout_attributes()) by {
        reveal_with_fuel(sizes_before, 5);
        assert(r.attributes@[0] == packed_attribute(slots@, 0));
        assert(r.attributes@[1] == packed_attribute(slots@, 1));
        assert(r.attributes@[2] == packed_attribute(slots@, 2));
        assert(r.attributes@[3] == packed_attribute(slots@, 3));
    }
    r
}

} // verus!
