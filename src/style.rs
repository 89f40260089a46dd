use crate::layout::{barycentric_layout_attributes, barycentric_vertex_layout, VertexLayout};
use vstd::prelude::*;

verus! {

/// The two ways of drawing a wireframe.
#[derive(Clone, Copy, Debug, PartialEq, Eq, Structural)]
pub enum WireframeStyle {
    /// Triangles rasterized as lines, blended in the transparent phase.
    Simple,
    /// Triangles filled, with edges drawn by the fragment shader from the
    /// barycentric corners, depth-biased against the solid draw of the same
    /// geometry; queued, like the simple style, in the transparent phase.
    Stylized,
}

/// How the rasterizer fills a triangle.
#[derive(Clone, Copy, Debug, PartialEq, Eq, Structural)]
pub enum PolygonMode {
    Fill,
    Line,
}

/// Why a pipeline cannot be specialized.
#[derive(Clone, Copy, Debug, PartialEq, Eq, Structural)]
pub enum PipelineError {
    /// The base mesh pipeline has no fragment stage to replace.
    MissingFragmentStage,
}

/// What a wireframe pipeline changes in the base mesh pipeline, besides
/// pointing both shader stages at the style's shader.
#[derive(Clone, Debug)]
pub struct PipelineOverrides {
    /// Whether back or front faces are culled; never, for a wireframe.
    pub cull_faces: bool,
    pub polygon_mode: PolygonMode,
    /// The slope-scaled depth bias, 0 or 1.
    pub depth_bias_slope_scale: u32,
    /// The one vertex buffer the pipeline reads.
    pub layout: VertexLayout,
}

/// The label of a style's pipeline.
pub open spec fn label_of(style: WireframeStyle) -> Seq<char> {
    match style {
        WireframeStyle::Simple => "simple_wireframe_pipeline"@,
        WireframeStyle::Stylized => "stylized_wireframe_pipeline"@,
    }
}

/// The overrides of a style: no culling; lines and no bias for the simple
/// style, fill and a slope bias of 1 for the stylized one; the barycentric
/// vertex layout for both.
pub open spec fn overrides_of(style: WireframeStyle, o: PipelineOverrides) -> bool {
    &&& !o.cull_faces
    &&& o.polygon_mode == match style {
        WireframeStyle::Simple => PolygonMode::Line,
        WireframeStyle::Stylized => PolygonMode::Fill,
    }
    &&& o.depth_bias_slope_scale == match style {
        WireframeStyle::Simple => 0u32,
        WireframeStyle::Stylized => 1u32,
    }
    &&& o.layout.array_stride == 44
    &&& o.layout.attributes@ == barycentric_layout_attributes()
}

impl WireframeStyle {
    /// The label given to the style's pipeline.
    pub fn label(self) -> (r: &'static str)
        ensures
            r@ == label_of(self),
    {
        match self {
            WireframeStyle::Simple => "simple_wireframe_pipeline",
            WireframeStyle::Stylized => "stylized_wireframe_pipeline",
        }
    }

    /// The overrides of the style, given whether the base pipeline has a
    /// fragment stage; without one the pipeline cannot be specialized.
    pub fn specialize(self, has_fragment_stage: bool) -> (r: Result<
        PipelineOverrides,
        PipelineError,
    >)
        ensures
            match r {
                Ok(o) => has_fragment_stage && overrides_of(self, o),
                Err(e) => !has_fragment_stage && e == PipelineError::MissingFragmentStage,
            },
    {
        if !has_fragment_stage {
            return Err(PipelineError::MissingFragmentStage);
        }
        let layout = barycentric_vertex_layout();
        match self {
            WireframeStyle::Simple => Ok(
                PipelineOverrides {
                    cull_faces: false,
                    polygon_mode: PolygonMode::Line,
                    depth_bias_slope_scale: 0,
                    layout,
                },
            ),
            WireframeStyle::Stylized => Ok(
                PipelineOverrides {
                    cull_faces: false,
                    polygon_mode: PolygonMode::Fill,
                    depth_bias_slope_scale: 1,
                    layout,
                },
            ),
        }
    }
}

} // verus!
