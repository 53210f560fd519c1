//! Pipeline state for the seed-generation pass.
//!
//! The pass draws one full-screen triangle whose fragments are gated by a
//! stencil-equality test. Everything the GPU needs to know about that draw
//! is fixed up front in an immutable [`RenderPipelineDescriptor`], which is
//! handed to a [`PipelineCache`] for asynchronous compilation. The node
//! keeps only the returned [`CachedPipelineId`] and polls it every frame.

use vstd::prelude::*;

verus! {

/// Texture formats this stage can reference.
#[derive(Clone, Copy, Debug, PartialEq, Eq, Structural)]
pub enum TextureFormat {
    /// Two 16-bit signed-normalized channels; holds a seed coordinate and
    /// its validity sign.
    Rg16Snorm,
    /// Combined 24-bit depth and 8-bit stencil; the pass reads only the
    /// stencil plane.
    Depth24PlusStencil8,
}

/// Comparison applied by the depth and stencil tests, evaluated as
/// `reference OP stored` on masked values.
#[derive(Clone, Copy, Debug, PartialEq, Eq, Structural)]
pub enum CompareFunction {
    Never,
    Less,
    Equal,
    LessEqual,
    Greater,
    NotEqual,
    GreaterEqual,
    Always,
}

/// What the stencil hardware writes back after a fragment is tested.
#[derive(Clone, Copy, Debug, PartialEq, Eq, Structural)]
pub enum StencilOperation {
    Keep,
    Zero,
    Replace,
    Invert,
    IncrementClamp,
    DecrementClamp,
    IncrementWrap,
    DecrementWrap,
}

/// How vertices are assembled into primitives.
#[derive(Clone, Copy, Debug, PartialEq, Eq, Structural)]
pub enum PrimitiveTopology {
    PointList,
    LineList,
    LineStrip,
    TriangleList,
    TriangleStrip,
}

/// Winding order that counts as front-facing.
#[derive(Clone, Copy, Debug, PartialEq, Eq, Structural)]
pub enum FrontFace {
    Ccw,
    Cw,
}

/// A triangle side, for culling selection.
#[derive(Clone, Copy, Debug, PartialEq, Eq, Structural)]
pub enum Face {
    Front,
    Back,
}

/// How triangles are rasterized.
#[derive(Clone, Copy, Debug, PartialEq, Eq, Structural)]
pub enum PolygonMode {
    Fill,
    Line,
    Point,
}

/// Reference to an externally loaded shader program. The program is
/// expected to expose the vertex and fragment entry points named in
/// [`CoordsPipelineConfig`].
#[derive(Clone, Copy, Debug, PartialEq, Eq, Structural)]
pub struct ShaderHandle {
    pub id: u64,
}

/// Layout of one bound vertex buffer. The seed pass binds none: its
/// triangle is generated procedurally in the vertex stage.
#[derive(Clone, Copy, Debug, PartialEq, Eq, Structural)]
pub struct VertexBufferLayout {
    pub array_stride: u64,
}

/// Stencil test and write-back behaviour for one triangle side.
#[derive(Clone, Copy, Debug, PartialEq, Eq, Structural)]
pub struct StencilFaceState {
    pub compare: CompareFunction,
    pub fail_op: StencilOperation,
    pub depth_fail_op: StencilOperation,
    pub pass_op: StencilOperation,
}

impl StencilFaceState {
    /// A face whose test always passes and whose operations never change
    /// the stored value.
    pub open spec fn spec_ignore() -> StencilFaceState {
        StencilFaceState {
            compare: CompareFunction::Always,
            fail_op: StencilOperation::Keep,
            depth_fail_op: StencilOperation::Keep,
            pass_op: StencilOperation::Keep,
        }
    }

    /// Executable counterpart of [`StencilFaceState::spec_ignore`].
    pub fn ignore() -> (r: StencilFaceState)
        ensures
            r == StencilFaceState::spec_ignore(),
    {
        StencilFaceState {
            compare: CompareFunction::Always,
            fail_op: StencilOperation::Keep,
            depth_fail_op: StencilOperation::Keep,
            pass_op: StencilOperation::Keep,
        }
    }
}

/// Stencil state for both triangle sides, with the read and write masks
/// applied to every stencil value and to the write-back.
#[derive(Clone, Copy, Debug, PartialEq, Eq, Structural)]
pub struct StencilState {
    pub front: StencilFaceState,
    pub back: StencilFaceState,
    pub read_mask: u32,
    pub write_mask: u32,
}

/// Depth and stencil configuration of the pipeline.
#[derive(Clone, Copy, Debug, PartialEq, Eq, Structural)]
pub struct DepthStencilState {
    pub format: TextureFormat,
    pub depth_write_enabled: bool,
    pub depth_compare: CompareFunction,
    pub stencil: StencilState,
}

/// Primitive assembly and rasterizer state.
#[derive(Clone, Copy, Debug, PartialEq, Eq)]
pub struct PrimitiveState {
    pub topology: PrimitiveTopology,
    pub front_face: FrontFace,
    pub cull_mode: Option<Face>,
    pub polygon_mode: PolygonMode,
}

/// Multisampling configuration; a count of 1 means multisampling is off.
#[derive(Clone, Copy, Debug, PartialEq, Eq, Structural)]
pub struct MultisampleState {
    pub count: u32,
}

/// Bit of [`ColorTargetState::write_mask`] that enables the red channel.
pub const COLOR_WRITE_RED: u32 = 0x1;

/// Bit of [`ColorTargetState::write_mask`] that enables the green channel.
pub const COLOR_WRITE_GREEN: u32 = 0x2;

/// Write mask enabling all four color channels.
pub const COLOR_WRITES_ALL: u32 = 0xF;

/// One color attachment the fragment stage writes to.
#[derive(Clone, Copy, Debug, PartialEq, Eq, Structural)]
pub struct ColorTargetState {
    pub format: TextureFormat,
    /// Whether the fragment output is blended with the stored color; the
    /// seed pass writes by plain replacement.
    pub blend_enabled: bool,
    pub write_mask: u32,
}

/// Vertex stage binding: the shader, its preprocessor defines, the entry
/// point, and the layouts of the bound vertex buffers.
#[derive(Clone, Debug, PartialEq, Eq)]
pub struct VertexState {
    pub shader: ShaderHandle,
    pub shader_defs: Vec<&'static str>,
    pub entry_point: &'static str,
    pub buffers: Vec<VertexBufferLayout>,
}

/// Fragment stage binding with its color targets.
#[derive(Clone, Debug, PartialEq, Eq)]
pub struct FragmentState {
    pub shader: ShaderHandle,
    pub shader_defs: Vec<&'static str>,
    pub entry_point: &'static str,
    pub targets: Vec<ColorTargetState>,
}

/// Complete, immutable description of one GPU render pipeline. Submitted
/// once to the [`PipelineCache`] and never mutated afterwards.
#[derive(Clone, Debug, PartialEq, Eq)]
pub struct RenderPipelineDescriptor {
    pub label: Option<&'static str>,
    pub vertex: VertexState,
    pub primitive: PrimitiveState,
    pub depth_stencil: Option<DepthStencilState>,
    pub multisample: MultisampleState,
    pub fragment: Option<FragmentState>,
}

/// Format of the seed-coordinate texture the pass writes.
pub const TEXTURE_FORMAT: TextureFormat = TextureFormat::Rg16Snorm;

/// Handle to one compilation request registered with a [`PipelineCache`].
#[derive(Clone, Copy, Debug, PartialEq, Eq, Structural)]
pub struct CachedPipelineId {
    pub index: usize,
}

/// Registry of pipeline descriptors compiled off the critical path.
///
/// Queueing a descriptor is immediate and infallible; whether its pipeline
/// is usable is a separate question answered by [`PipelineCache::get`]
/// every frame. Compilation itself happens outside the per-frame code: the
/// driver of the cache calls [`PipelineCache::finish_compilation`] when a
/// queued pipeline becomes usable, whatever schedule backs it.
#[derive(Debug)]
pub struct PipelineCache {
    /// Descriptor of each request, in queueing order.
    pub descriptors: Vec<RenderPipelineDescriptor>,
    /// Whether the request at the same index has finished compiling.
    pub ready: Vec<bool>,
}

impl PipelineCache {
    /// Both columns of the registry describe the same requests.
    pub open spec fn inv(self) -> bool {
        self.descriptors@.len() == self.ready@.len()
    }

    /// Number of requests queued so far.
    pub open spec fn spec_len(self) -> nat {
        self.descriptors@.len()
    }

    /// Whether `id` refers to a request whose pipeline finished compiling.
    pub open spec fn spec_is_ready(self, id: CachedPipelineId) -> bool {
        id.index < self.ready@.len() && self.ready@[id.index as int]
    }

    /// Descriptor of the request `id` refers to.
    pub open spec fn spec_descriptor_of(self, id: CachedPipelineId) -> RenderPipelineDescriptor
        recommends
            id.index < self.spec_len(),
    {
        self.descriptors@[id.index as int]
    }

    /// An empty cache with no requests.
    pub fn new() -> (c: PipelineCache)
        ensures
            c.inv(),
            c.spec_len() == 0,
    {
        PipelineCache { descriptors: Vec::new(), ready: Vec::new() }
    }

    /// Registers `descriptor` for asynchronous compilation and returns the
    /// handle under which its pipeline can later be resolved. Never blocks
    /// and never fails; the new request starts out not ready.
    pub fn queue(&mut self, descriptor: RenderPipelineDescriptor) -> (id: CachedPipelineId)
        requires
            old(self).inv(),
        ensures
            final(self).inv(),
            id.index == old(self).spec_len(),
            final(self).descriptors@ == old(self).descriptors@.push(descriptor),
            final(self).ready@ == old(self).ready@.push(false),
            !final(self).spec_is_ready(id),
            final(self).spec_descriptor_of(id) == descriptor,
    {
        let index = self.descriptors.len();
        self.descriptors.push(descriptor);
        self.ready.push(false);
        CachedPipelineId { index }
    }

    /// Resolves `id` to its descriptor exactly when its pipeline has
    /// finished compiling; `None` while the request is still queued or
    /// when `id` is not a handle this cache issued.
    pub fn get(&self, id: CachedPipelineId) -> (r: Option<&RenderPipelineDescriptor>)
        requires
            self.inv(),
        ensures
            match r {
                Some(d) => self.spec_is_ready(id) && *d == self.spec_descriptor_of(id),
                None => !self.spec_is_ready(id),
            },
    {
        if id.index < self.ready.len() && self.ready[id.index] {
            Some(&self.descriptors[id.index])
        } else {
            None
        }
    }

    /// Marks the request `id` refers to as compiled. Stands for the
    /// completion signal of whatever asynchronous backend built the
    /// pipeline; a handle the cache never issued is ignored.
    pub fn finish_compilation(&mut self, id: CachedPipelineId)
        requires
            old(self).inv(),
        ensures
            final(self).inv(),
            final(self).descriptors@ == old(self).descriptors@,
            id.index < old(self).spec_len() ==> final(self).ready@
                == old(self).ready@.update(id.index as int, true),
            id.index >= old(self).spec_len() ==> final(self).ready@ == old(self).ready@,
    {
        if id.index < self.ready.len() {
            self.ready.set(id.index, true);
        }
    }
}

/// Configuration injected into the descriptor builder: the shader program,
/// its two entry points, and the externally chosen texture formats.
#[derive(Clone, Copy, Debug)]
pub struct CoordsPipelineConfig {
    pub shader: ShaderHandle,
    pub vertex_entry: &'static str,
    pub fragment_entry: &'static str,
    pub depth_stencil_format: TextureFormat,
    pub color_format: TextureFormat,
}

/// Primitive state of the seed pipeline: a back-face-culled triangle list
/// with counter-clockwise front faces, filled.
pub open spec fn spec_coords_primitive() -> PrimitiveState {
    PrimitiveState {
        topology: PrimitiveTopology::TriangleList,
        front_face: FrontFace::Ccw,
        cull_mode: Some(Face::Back),
        polygon_mode: PolygonMode::Fill,
    }
}

/// Depth-stencil state of the seed pipeline: depth always passes and is
/// never written; the front stencil test compares for equality under a
/// full read mask, keeps the stored value on every outcome, and writes
/// nothing back; the back face is ignored.
pub open spec fn spec_coords_depth_stencil(format: TextureFormat) -> DepthStencilState {
    DepthStencilState {
        format,
        depth_write_enabled: false,
        depth_compare: CompareFunction::Always,
        stencil: StencilState {
            front: StencilFaceState {
                compare: CompareFunction::Equal,
                fail_op: StencilOperation::Keep,
                depth_fail_op: StencilOperation::Keep,
                pass_op: StencilOperation::Keep,
            },
            back: StencilFaceState::spec_ignore(),
            read_mask: 0xFFFF_FFFF,
            write_mask: 0,
        },
    }
}

/// Sole color target of the seed pipeline: the seed-coordinate format,
/// no blending, all channels writable.
pub open spec fn spec_coords_target(format: TextureFormat) -> ColorTargetState {
    ColorTargetState { format, blend_enabled: false, write_mask: COLOR_WRITES_ALL }
}

/// The exact pipeline configuration of the seed-generation pass:
/// both stages bound to the configured shader with no preprocessor
/// defines, no vertex buffers, the fixed primitive and depth-stencil
/// state, multisampling off, and the single color target.
pub open spec fn is_coords_descriptor(
    d: RenderPipelineDescriptor,
    config: CoordsPipelineConfig,
) -> bool {
    &&& d.label matches Some(l) && l@ == "outline_coords_pipeline"@
    &&& d.vertex.shader == config.shader
    &&& d.vertex.shader_defs@.len() == 0
    &&& d.vertex.entry_point@ == config.vertex_entry@
    &&& d.vertex.buffers@.len() == 0
    &&& d.primitive == spec_coords_primitive()
    &&& d.depth_stencil == Some(spec_coords_depth_stencil(config.depth_stencil_format))
    &&& d.multisample.count == 1
    &&& d.fragment matches Some(f) && {
        &&& f.shader == config.shader
        &&& f.shader_defs@.len() == 0
        &&& f.entry_point@ == config.fragment_entry@
        &&& f.targets@.len() == 1
        &&& f.targets@[0] == spec_coords_target(config.color_format)
    }
}

/// Builds the seed pipeline's descriptor from the injected configuration.
pub fn coords_pipeline_descriptor(config: &CoordsPipelineConfig) -> (d: RenderPipelineDescriptor)
    ensures
        is_coords_descriptor(d, *config),
{
    RenderPipelineDescriptor {
        label: Some("outline_coords_pipeline"),
        vertex: VertexState {
            shader: config.shader,
            shader_defs: Vec::new(),
            entry_point: config.vertex_entry,
            buffers: Vec::new(),
        },
        primitive: PrimitiveState {
            topology: PrimitiveTopology::TriangleList,
            front_face: FrontFace::Ccw,
            cull_mode: Some(Face::Back),
            polygon_mode: PolygonMode::Fill,
        },
        depth_stencil: Some(DepthStencilState {
            format: config.depth_stencil_format,
            depth_write_enabled: false,
            depth_compare: CompareFunction::Always,
            stencil: StencilState {
                front: StencilFaceState {
                    compare: CompareFunction::Equal,
                    fail_op: StencilOperation::Keep,
                    depth_fail_op: StencilOperation::Keep,
                    pass_op: StencilOperation::Keep,
                },
                back: StencilFaceState::ignore(),
                read_mask: 0xFFFF_FFFF,
                write_mask: 0,
            },
        }),
        multisample: MultisampleState { count: 1 },
        fragment: Some(FragmentState {
            shader: config.shader,
            shader_defs: Vec::new(),
            entry_point: config.fragment_entry,
            targets: {
                let mut targets: Vec<ColorTargetState> = Vec::new();
                targets.push(ColorTargetState {
                    format: config.color_format,
                    blend_enabled: false,
                    write_mask: COLOR_WRITES_ALL,
                });
                targets
            },
        }),
    }
}

/// The seed-generation stage's pipeline: a handle to the one compilation
/// request the stage registers at start-up.
pub struct CoordsPipeline {
    pub cached: CachedPipelineId,
}

impl CoordsPipeline {
    /// Builds the seed pipeline descriptor and registers it with `cache`
    /// for asynchronous compilation. Infallible: compilation problems, if
    /// any, surface later through the cache's own resolution.
    ///
    /// Every request already in the cache is left untouched.
    pub fn new(cache: &mut PipelineCache, config: &CoordsPipelineConfig) -> (p: CoordsPipeline)
        requires
            old(cache).inv(),
        ensures
            final(cache).inv(),
            p.cached.index == old(cache).spec_len(),
            final(cache).spec_len() == old(cache).spec_len() + 1,
            is_coords_descriptor(final(cache).spec_descriptor_of(p.cached), *config),
            !final(cache).spec_is_ready(p.cached),
            final(cache).descriptors@.subrange(0, old(cache).spec_len() as int)
                == old(cache).descriptors@,
            final(cache).ready@.subrange(0, old(cache).spec_len() as int) == old(cache).ready@,
    {
        let descriptor = coords_pipeline_descriptor(config);
        let cached = cache.queue(descriptor);
        proof {
            assert(cache.descriptors@.subrange(0, old(cache).spec_len() as int)
                =~= old(cache).descriptors@);
            assert(cache.ready@.subrange(0, old(cache).spec_len() as int) =~= old(cache).ready@);
        }
        CoordsPipeline { cached }
    }
}

} // verus!

