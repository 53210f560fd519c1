//! Recorded render-pass commands.
//!
//! A node does not touch the GPU directly: it records commands into the
//! frame's command stream, and an external executor replays them after the
//! frame is assembled. This module models the stream as plain data — a
//! render pass is its attachments and operations, the bound pipeline, the
//! stencil reference, and the draws issued — so that what a node recorded
//! is a value contracts can speak about. [`crate::pass`] gives the
//! recorded value its meaning on textures.

use crate::graph::TextureViewId;
use crate::pipeline::CachedPipelineId;
use vstd::prelude::*;

verus! {

/// One texel of the two-channel 16-bit signed-normalized seed texture,
/// stored as its raw channel encodings. A raw value `v` decodes to the
/// color `max(v / 32767, -1)`.
#[derive(Clone, Copy, Debug, PartialEq, Eq, Structural)]
pub struct Texel {
    pub r: i16,
    pub g: i16,
}

/// Raw 16-bit signed-normalized encoding of the color channel value -1.
pub const SNORM16_NEG_ONE: i16 = -32767;

/// The "no seed here" marker: the clear color (-1, -1, 0, 0) encoded in
/// the seed texture's two-channel format. Negative channels lie outside
/// the normalized coordinate range, so downstream jump-flood passes treat
/// such a texel as holding no propagation source.
pub open spec fn spec_sentinel() -> Texel {
    Texel { r: SNORM16_NEG_ONE, g: SNORM16_NEG_ONE }
}

/// Executable counterpart of [`spec_sentinel`].
pub fn sentinel() -> (t: Texel)
    ensures
        t == spec_sentinel(),
{
    Texel { r: SNORM16_NEG_ONE, g: SNORM16_NEG_ONE }
}

/// How an attachment's contents enter a pass: cleared to a constant or
/// loaded from what the texture already holds.
#[derive(Clone, Copy, Debug, PartialEq, Eq)]
pub enum LoadOp<V> {
    Clear(V),
    Load,
}

/// Load behaviour paired with whether the pass's writes are kept. With
/// `store` false the attachment is only consulted: nothing the pass did to
/// it survives the pass.
#[derive(Clone, Copy, Debug, PartialEq, Eq)]
pub struct Operations<V> {
    pub load: LoadOp<V>,
    pub store: bool,
}

/// The color attachment of a pass: the texture view written and how its
/// contents are loaded and stored.
#[derive(Clone, Copy, Debug, PartialEq, Eq)]
pub struct RenderPassColorAttachment {
    pub view: TextureViewId,
    /// Multisample resolve destination; none when multisampling is off.
    pub resolve_target: Option<TextureViewId>,
    pub ops: Operations<Texel>,
}

/// The depth-stencil attachment of a pass. An absent `depth_ops` or
/// `stencil_ops` means the pass leaves that plane entirely alone.
#[derive(Clone, Copy, Debug, PartialEq, Eq)]
pub struct RenderPassDepthStencilAttachment {
    pub view: TextureViewId,
    pub depth_ops: Option<Operations<u32>>,
    pub stencil_ops: Option<Operations<u32>>,
}

/// Attachments and label a render pass begins with.
#[derive(Clone, Debug, PartialEq, Eq)]
pub struct RenderPassDescriptor {
    pub label: Option<&'static str>,
    pub color_attachments: Vec<RenderPassColorAttachment>,
    pub depth_stencil_attachment: Option<RenderPassDepthStencilAttachment>,
}

/// One draw call: the half-open vertex and instance ranges submitted.
#[derive(Clone, Copy, Debug, PartialEq, Eq, Structural)]
pub struct Draw {
    pub vertex_start: u32,
    pub vertex_end: u32,
    pub instance_start: u32,
    pub instance_end: u32,
}

/// A render pass under recording: its descriptor, the state set so far,
/// and every draw issued, in order.
#[derive(Clone, Debug, PartialEq, Eq)]
pub struct TrackedRenderPass {
    pub descriptor: RenderPassDescriptor,
    pub pipeline: Option<CachedPipelineId>,
    pub stencil_reference: u32,
    pub draws: Vec<Draw>,
}

impl TrackedRenderPass {
    /// Begins recording a pass over the given attachments: no pipeline
    /// bound, stencil reference zero, no draws yet.
    pub fn new(descriptor: RenderPassDescriptor) -> (p: TrackedRenderPass)
        ensures
            p.descriptor == descriptor,
            p.pipeline is None,
            p.stencil_reference == 0,
            p.draws@.len() == 0,
    {
        TrackedRenderPass { descriptor, pipeline: None, stencil_reference: 0, draws: Vec::new() }
    }

    /// Binds the compiled pipeline the given cache handle resolved to.
    pub fn set_render_pipeline(&mut self, id: CachedPipelineId)
        ensures
            final(self).descriptor == old(self).descriptor,
            final(self).pipeline == Some(id),
            final(self).stencil_reference == old(self).stencil_reference,
            final(self).draws@ == old(self).draws@,
    {
        self.pipeline = Some(id);
    }

    /// Sets the reference value the stencil test compares stored stencil
    /// values against.
    pub fn set_stencil_reference(&mut self, reference: u32)
        ensures
            final(self).descriptor == old(self).descriptor,
            final(self).pipeline == old(self).pipeline,
            final(self).stencil_reference == reference,
            final(self).draws@ == old(self).draws@,
    {
        self.stencil_reference = reference;
    }

    /// Records a draw of the vertex range `vertex_start..vertex_end`,
    /// instanced over `instance_start..instance_end`.
    pub fn draw(&mut self, vertex_start: u32, vertex_end: u32, instance_start: u32, instance_end: u32)
        ensures
            final(self).descriptor == old(self).descriptor,
            final(self).pipeline == old(self).pipeline,
            final(self).stencil_reference == old(self).stencil_reference,
            final(self).draws@ == old(self).draws@.push(
                Draw { vertex_start, vertex_end, instance_start, instance_end },
            ),
    {
        self.draws.push(Draw { vertex_start, vertex_end, instance_start, instance_end });
    }
}

/// The frame's command stream: every render pass recorded so far, in
/// submission order.
#[derive(Debug)]
pub struct CommandEncoder {
    pub passes: Vec<TrackedRenderPass>,
}

impl CommandEncoder {
    /// An encoder with nothing recorded.
    pub fn new() -> (e: CommandEncoder)
        ensures
            e.passes@.len() == 0,
    {
        CommandEncoder { passes: Vec::new() }
    }

    /// Appends a finished pass to the command stream.
    pub fn finish_pass(&mut self, pass: TrackedRenderPass)
        ensures
            final(self).passes@ == old(self).passes@.push(pass),
    {
        self.passes.push(pass);
    }
}

/// What a node may write GPU work into while it runs.
#[derive(Debug)]
pub struct RenderContext {
    pub command_encoder: CommandEncoder,
}

impl RenderContext {
    /// A context with an empty command stream.
    pub fn new() -> (c: RenderContext)
        ensures
            c.command_encoder.passes@.len() == 0,
    {
        RenderContext { command_encoder: CommandEncoder::new() }
    }
}

} // verus!
