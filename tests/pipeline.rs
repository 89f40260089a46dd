use bevy_stylized_wireframe::{
    barycentric_vertex_layout, pack_attributes, queue_view, specialization_key, AttributeFormat,
    PipelineCache, PipelineError, PipelineHandle, PipelineKey, PolygonMode, RenderItem,
    Topology, VertexAttribute, WireframeStyle,
};

fn attr(format: AttributeFormat, offset: u64, shader_location: u32) -> VertexAttribute {
    VertexAttribute { format, offset, shader_location }
}

#[test]
fn barycentric_layout_offsets() {
    let layout = barycentric_vertex_layout();
    assert_eq!(layout.array_stride, 44);
    assert_eq!(
        layout.attributes,
        vec![
            attr(AttributeFormat::Float32x3, 0, 3),
            attr(AttributeFormat::Float32x3, 12, 1),
            attr(AttributeFormat::Float32x3, 24, 0),
            attr(AttributeFormat::Float32x2, 36, 2),
        ]
    );
}

#[test]
fn packing_sums_format_sizes() {
    let layout = pack_attributes(&vec![
        (AttributeFormat::Float32x2, 5),
        (AttributeFormat::Float32x3, 6),
        (AttributeFormat::Float32x2, 7),
    ]);
    assert_eq!(layout.array_stride, 28);
    assert_eq!(
        layout.attributes,
        vec![
            attr(AttributeFormat::Float32x2, 0, 5),
            attr(AttributeFormat::Float32x3, 8, 6),
            attr(AttributeFormat::Float32x2, 20, 7),
        ]
    );
    let empty = pack_attributes(&vec![]);
    assert_eq!(empty.array_stride, 0);
    assert!(empty.attributes.is_empty());
}

#[test]
fn specialization_key_bits() {
    assert_eq!(specialization_key(1, Topology::PointList), PipelineKey { bits: 0 });
    assert_eq!(
        specialization_key(4, Topology::TriangleList),
        PipelineKey { bits: (3 << 26) | (3 << 23) }
    );
    assert_eq!(
        specialization_key(64, Topology::TriangleStrip),
        PipelineKey { bits: (63 << 26) | (4 << 23) }
    );
    assert_eq!(specialization_key(1, Topology::LineStrip), PipelineKey { bits: 2 << 23 });
}

#[test]
fn cache_returns_one_handle_per_key() {
    let mut cache = PipelineCache::new();
    let key = specialization_key(4, Topology::TriangleList);
    let first = cache.specialize(key);
    assert!(first.built);
    let second = cache.specialize(key);
    assert!(!second.built);
    assert_eq!(first.handle, second.handle);
    assert_eq!(cache.len(), 1);
    assert_eq!(cache.key(first.handle), Some(key));
    assert_eq!(cache.key(PipelineHandle(1)), None);
}

#[test]
fn cache_separates_msaa_counts() {
    let mut cache = PipelineCache::new();
    let one = cache.specialize(specialization_key(1, Topology::TriangleList));
    let four = cache.specialize(specialization_key(4, Topology::TriangleList));
    assert!(one.built && four.built);
    assert_ne!(one.handle, four.handle);
    assert_eq!(cache.len(), 2);
    let again = cache.specialize(specialization_key(1, Topology::TriangleList));
    assert_eq!(again.handle, one.handle);
    assert!(!again.built);
}

#[test]
fn unuploaded_meshes_are_skipped() {
    let mut cache = PipelineCache::new();
    let items = queue_view(&mut cache, 4, &vec![None, None, None]);
    assert!(items.is_empty());
    assert_eq!(cache.len(), 0);
    let items = queue_view(&mut cache, 1, &vec![]);
    assert!(items.is_empty());
}

#[test]
fn queue_pairs_ready_instances_with_pipelines() {
    let mut cache = PipelineCache::new();
    let meshes = vec![
        Some(Topology::TriangleList),
        None,
        Some(Topology::LineList),
        Some(Topology::TriangleList),
    ];
    let items = queue_view(&mut cache, 4, &meshes);
    assert_eq!(
        items,
        vec![
            RenderItem { instance: 0, pipeline: PipelineHandle(0) },
            RenderItem { instance: 2, pipeline: PipelineHandle(1) },
            RenderItem { instance: 3, pipeline: PipelineHandle(0) },
        ]
    );
    assert_eq!(cache.len(), 2);
    // A second view reuses the pipelines built for the first.
    let again = queue_view(&mut cache, 4, &meshes);
    assert_eq!(again, items);
    assert_eq!(cache.len(), 2);
}

#[test]
fn style_overrides() {
    let simple = WireframeStyle::Simple.specialize(true).unwrap();
    assert!(!simple.cull_faces);
    assert_eq!(simple.polygon_mode, PolygonMode::Line);
    assert_eq!(simple.depth_bias_slope_scale, 0);
    assert_eq!(simple.layout.array_stride, 44);
    let stylized = WireframeStyle::Stylized.specialize(true).unwrap();
    assert!(!stylized.cull_faces);
    assert_eq!(stylized.polygon_mode, PolygonMode::Fill);
    assert_eq!(stylized.depth_bias_slope_scale, 1);
    assert_eq!(stylized.layout.attributes, barycentric_vertex_layout().attributes);
    assert_eq!(WireframeStyle::Simple.label(), "simple_wireframe_pipeline");
    assert_eq!(WireframeStyle::Stylized.label(), "stylized_wireframe_pipeline");
}

#[test]
fn missing_fragment_stage_is_fatal() {
    assert_eq!(
        WireframeStyle::Simple.specialize(false).err(),
        Some(PipelineError::MissingFragmentStage)
    );
    assert_eq!(
        WireframeStyle::Stylized.specialize(false).err(),
        Some(PipelineError::MissingFragmentStage)
    );
}

