//! Stylized wireframe rendering: mesh preprocessing with per-vertex
//! barycentric corners, the vertex layout and pipeline specialization that
//! draw it, and the per-frame queueing of tagged mesh instances.

pub mod cache;
pub mod key;
pub mod layout;
pub mod mesh;
pub mod queue;
pub mod style;

pub use cache::{PipelineCache, PipelineHandle, Specialization};
pub use key::{specialization_key, PipelineKey};
pub use layout::{
    barycentric_vertex_layout, pack_attributes, AttributeFormat, VertexAttribute, VertexLayout,
};
pub use mesh::{
    barycentric_corner, barycentric_corners, ComputeBarycentric, Corner, MeshError, Topology,
    TriangleMesh, ATTRIBUTE_BARYCENTRIC,
};
pub use queue::{queue_view, RenderItem};
pub use style::{PipelineError, PipelineOverrides, PolygonMode, WireframeStyle};
