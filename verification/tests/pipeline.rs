use jfa_coords::pipeline::{
    CompareFunction, CoordsPipeline, CoordsPipelineConfig, Face, FrontFace, PipelineCache,
    PolygonMode, PrimitiveTopology, ShaderHandle, StencilOperation, TextureFormat,
    coords_pipeline_descriptor, COLOR_WRITES_ALL, TEXTURE_FORMAT,
};
use jfa_coords::render::{sentinel, SNORM16_NEG_ONE};

fn config() -> CoordsPipelineConfig {
    CoordsPipelineConfig {
        shader: ShaderHandle { id: 7 },
        vertex_entry: "vertex",
        fragment_entry: "fragment",
        depth_stencil_format: TextureFormat::Depth24PlusStencil8,
        color_format: TEXTURE_FORMAT,
    }
}

#[test]
fn descriptor_matches_specified_state() {
    let d = coords_pipeline_descriptor(&config());

    assert_eq!(d.label, Some("outline_coords_pipeline"));

    assert_eq!(d.vertex.shader, ShaderHandle { id: 7 });
    assert_eq!(d.vertex.entry_point, "vertex");
    assert!(d.vertex.shader_defs.is_empty());
    assert!(d.vertex.buffers.is_empty());

    assert_eq!(d.primitive.topology, PrimitiveTopology::TriangleList);
    assert_eq!(d.primitive.front_face, FrontFace::Ccw);
    assert_eq!(d.primitive.cull_mode, Some(Face::Back));
    assert_eq!(d.primitive.polygon_mode, PolygonMode::Fill);

    let ds = d.depth_stencil.expect("combined depth-stencil state");
    assert_eq!(ds.format, TextureFormat::Depth24PlusStencil8);
    assert!(!ds.depth_write_enabled);
    assert_eq!(ds.depth_compare, CompareFunction::Always);
    assert_eq!(ds.stencil.front.compare, CompareFunction::Equal);
    assert_eq!(ds.stencil.front.fail_op, StencilOperation::Keep);
    assert_eq!(ds.stencil.front.depth_fail_op, StencilOperation::Keep);
    assert_eq!(ds.stencil.front.pass_op, StencilOperation::Keep);
    assert_eq!(ds.stencil.back.compare, CompareFunction::Always);
    assert_eq!(ds.stencil.back.fail_op, StencilOperation::Keep);
    assert_eq!(ds.stencil.back.depth_fail_op, StencilOperation::Keep);
    assert_eq!(ds.stencil.back.pass_op, StencilOperation::Keep);
    assert_eq!(ds.stencil.read_mask, u32::MAX);
    assert_eq!(ds.stencil.write_mask, 0);

    assert_eq!(d.multisample.count, 1);

    let f = d.fragment.expect("fragment state");
    assert_eq!(f.shader, ShaderHandle { id: 7 });
    assert_eq!(f.entry_point, "fragment");
    assert!(f.shader_defs.is_empty());
    assert_eq!(f.targets.len(), 1);
    assert_eq!(f.targets[0].format, TextureFormat::Rg16Snorm);
    assert!(!f.targets[0].blend_enabled);
    assert_eq!(f.targets[0].write_mask, COLOR_WRITES_ALL);
}

#[test]
fn builder_queues_single_pending_request() {
    let mut cache = PipelineCache::new();
    let cfg = config();
    let pipeline = CoordsPipeline::new(&mut cache, &cfg);

    assert_eq!(cache.descriptors.len(), 1);
    assert_eq!(pipeline.cached.index, 0);
    assert!(cache.get(pipeline.cached).is_none());

    cache.finish_compilation(pipeline.cached);
    let resolved = cache.get(pipeline.cached).expect("compiled after completion");
    assert_eq!(*resolved, coords_pipeline_descriptor(&cfg));
}

#[test]
fn cache_requests_are_independent() {
    let mut cache = PipelineCache::new();
    let cfg = config();
    let first = CoordsPipeline::new(&mut cache, &cfg);
    let second = CoordsPipeline::new(&mut cache, &cfg);
    assert_ne!(first.cached.index, second.cached.index);

    cache.finish_compilation(second.cached);
    assert!(cache.get(first.cached).is_none());
    assert!(cache.get(second.cached).is_some());
}

#[test]
fn cache_ignores_foreign_handle() {
    let mut cache = PipelineCache::new();
    let cfg = config();
    let pipeline = CoordsPipeline::new(&mut cache, &cfg);

    cache.finish_compilation(jfa_coords::pipeline::CachedPipelineId { index: 99 });
    assert!(cache.get(pipeline.cached).is_none());
    assert_eq!(cache.descriptors.len(), 1);
}

#[test]
fn output_format_is_two_channel_snorm() {
    assert_eq!(TEXTURE_FORMAT, TextureFormat::Rg16Snorm);
}

#[test]
fn sentinel_encodes_minus_one_minus_one() {
    let t = sentinel();
    assert_eq!(t.r, SNORM16_NEG_ONE);
    assert_eq!(t.g, SNORM16_NEG_ONE);
    // 16-bit signed-normalized decoding: raw / 32767, clamped to -1.
    let red = f32::max(t.r as f32 / 32767.0, -1.0);
    let green = f32::max(t.g as f32 / 32767.0, -1.0);
    assert_eq!(red, -1.0);
    assert_eq!(green, -1.0);
}
