use jfa_coords::graph::{RenderGraphContext, TextureViewId};
use jfa_coords::node::{CoordsNode, OutlineResources, IN_STENCIL_SLOT};
use jfa_coords::pass::{execute_pass, ColorTexture, DepthStencilTexture, STENCIL_MARKED};
use jfa_coords::pipeline::{
    CoordsPipeline, CoordsPipelineConfig, PipelineCache, RenderPipelineDescriptor, ShaderHandle,
    TextureFormat, TEXTURE_FORMAT,
};
use jfa_coords::render::{sentinel, RenderContext, Texel, TrackedRenderPass};

const STENCIL_VIEW: TextureViewId = TextureViewId { id: 3 };
const COORDS_VIEW: TextureViewId = TextureViewId { id: 4 };

/// Runs the node with a compiled pipeline and returns the recorded pass
/// with the pipeline state its handle resolves to.
fn recorded_pass() -> (TrackedRenderPass, RenderPipelineDescriptor) {
    let mut cache = PipelineCache::new();
    let config = CoordsPipelineConfig {
        shader: ShaderHandle { id: 1 },
        vertex_entry: "vertex",
        fragment_entry: "fragment",
        depth_stencil_format: TextureFormat::Depth24PlusStencil8,
        color_format: TEXTURE_FORMAT,
    };
    let pipeline = CoordsPipeline::new(&mut cache, &config);
    cache.finish_compilation(pipeline.cached);

    let mut graph = RenderGraphContext::new(1, 1);
    graph.set_input(IN_STENCIL_SLOT, STENCIL_VIEW);
    let mut render_context = RenderContext::new();
    let res = OutlineResources { jfa_primary_output: COORDS_VIEW };
    let node = CoordsNode;
    node.run(&mut graph, &mut render_context, &res, &pipeline, &cache).expect("wired graph");

    let pass = render_context.command_encoder.passes.pop().expect("one pass recorded");
    let desc = cache.get(pipeline.cached).expect("compiled").clone();
    (pass, desc)
}

/// A fragment-stage output distinct from the sentinel at every pixel.
fn fragment_output(len: usize) -> Vec<Texel> {
    (0..len).map(|i| Texel { r: i as i16, g: 100 + i as i16 }).collect()
}

fn garbage_texture(len: usize) -> ColorTexture {
    ColorTexture { texels: (0..len).map(|i| Texel { r: -7 * i as i16, g: 9 }).collect() }
}

#[test]
fn empty_stencil_leaves_every_pixel_sentinel() {
    let (pass, desc) = recorded_pass();
    let len = 16;
    let mut ds = DepthStencilTexture { depth: vec![5; len], stencil: vec![0; len] };
    let mut color = garbage_texture(len);
    let frag = fragment_output(len);

    execute_pass(&pass, &desc, &mut ds, &mut color, &frag);

    for texel in &color.texels {
        assert_eq!(*texel, sentinel());
    }
}

#[test]
fn full_stencil_hands_every_pixel_to_the_fragment_stage() {
    let (pass, desc) = recorded_pass();
    let len = 16;
    let mut ds = DepthStencilTexture { depth: vec![5; len], stencil: vec![STENCIL_MARKED; len] };
    let mut color = garbage_texture(len);
    let frag = fragment_output(len);

    execute_pass(&pass, &desc, &mut ds, &mut color, &frag);

    assert_eq!(color.texels, frag);
    for texel in &color.texels {
        assert_ne!(*texel, sentinel());
    }
}

#[test]
fn mixed_stencil_writes_only_marked_pixels() {
    let (pass, desc) = recorded_pass();
    let stencil: Vec<u8> = vec![0, 0xFF, 0, 0xFF, 0xFF, 0, 0, 0xFF];
    let len = stencil.len();
    let mut ds = DepthStencilTexture { depth: vec![0; len], stencil: stencil.clone() };
    let mut color = garbage_texture(len);
    let frag = fragment_output(len);

    execute_pass(&pass, &desc, &mut ds, &mut color, &frag);

    for i in 0..len {
        if stencil[i] == STENCIL_MARKED {
            assert_eq!(color.texels[i], frag[i]);
        } else {
            assert_eq!(color.texels[i], sentinel());
        }
    }
}

#[test]
fn partially_marked_stencil_values_stay_sentinel() {
    // The test is equality against all bits set, not "any bit set".
    let (pass, desc) = recorded_pass();
    let stencil: Vec<u8> = vec![0x01, 0x7F, 0xFE, 0x80, 0xFF];
    let len = stencil.len();
    let mut ds = DepthStencilTexture { depth: vec![0; len], stencil: stencil.clone() };
    let mut color = garbage_texture(len);
    let frag = fragment_output(len);

    execute_pass(&pass, &desc, &mut ds, &mut color, &frag);

    for i in 0..len - 1 {
        assert_eq!(color.texels[i], sentinel());
    }
    assert_eq!(color.texels[len - 1], frag[len - 1]);
}

#[test]
fn stencil_and_depth_planes_come_out_bit_for_bit_unchanged() {
    let (pass, desc) = recorded_pass();
    let stencil: Vec<u8> = (0..32).map(|i| (i * 37) as u8).collect();
    let depth: Vec<u32> = (0..32u32).map(|i| 0xABCDE ^ i).collect();
    let mut ds = DepthStencilTexture { depth: depth.clone(), stencil: stencil.clone() };
    let mut color = garbage_texture(32);
    let frag = fragment_output(32);

    execute_pass(&pass, &desc, &mut ds, &mut color, &frag);

    assert_eq!(ds.stencil, stencil);
    assert_eq!(ds.depth, depth);
}

#[test]
fn clear_discards_previous_frame_contents() {
    let (pass, desc) = recorded_pass();
    let len = 8;
    let mut ds = DepthStencilTexture { depth: vec![0; len], stencil: vec![0; len] };
    // Previous contents that are neither sentinel nor fragment output.
    let mut color = ColorTexture { texels: vec![Texel { r: 12345, g: -321 }; len] };
    let frag = fragment_output(len);

    execute_pass(&pass, &desc, &mut ds, &mut color, &frag);

    for texel in &color.texels {
        assert_eq!(*texel, sentinel());
    }
}
