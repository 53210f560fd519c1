//! The seed-generation node: one unit of per-frame GPU work.
//!
//! Each frame the node publishes its fixed output texture view, resolves
//! its compiled pipeline, and — only when the pipeline is ready — records
//! one render pass: the output texture cleared to the sentinel, the
//! upstream stencil view bound read-only, and a single stencil-gated
//! full-screen-triangle draw. While the pipeline is still compiling the
//! node skips the draw silently; that is the expected state during the
//! first frames after start-up or a shader reload, not an error.

use crate::graph::{NodeRunError, RenderGraphContext, SlotInfo, SlotType, TextureViewId};
use crate::pipeline::{CachedPipelineId, CoordsPipeline, PipelineCache};
use crate::render::{
    Draw, LoadOp, Operations, RenderContext, RenderPassColorAttachment,
    RenderPassDepthStencilAttachment, RenderPassDescriptor, TrackedRenderPass, sentinel,
    spec_sentinel,
};
use vstd::prelude::*;

verus! {

/// Position of the stencil slot in the node's input declaration.
pub const IN_STENCIL_SLOT: usize = 0;

/// Position of the coords slot in the node's output declaration.
pub const OUT_COORDS_SLOT: usize = 0;

/// Stencil reference the pass compares stored stencil values against:
/// all bits set, the value the upstream rasterizer stamps into the
/// stencil buffer for every pixel of an outlined object.
pub const STENCIL_REFERENCE: u32 = 0xFFFF_FFFF;

/// Externally owned textures of the outline pipeline that this node
/// references: the seed-coordinate texture it always publishes and draws
/// into.
pub struct OutlineResources {
    pub jfa_primary_output: TextureViewId,
}

/// The full-screen draw: exactly three procedurally generated vertices in
/// exactly one instance, with no vertex or index buffer bound.
pub open spec fn spec_fullscreen_draw() -> Draw {
    Draw { vertex_start: 0, vertex_end: 3, instance_start: 0, instance_end: 1 }
}

/// The one render pass the node records when its pipeline is ready:
/// - the color attachment is the seed texture `target`, clear-loaded to
///   the sentinel and stored afterwards;
/// - the depth-stencil attachment is the upstream `stencil` view with the
///   depth plane untouched and the stencil plane loaded but never stored;
/// - the compiled pipeline behind `pipeline` is bound;
/// - the stencil reference is all bits set;
/// - the only draw is the full-screen triangle.
pub open spec fn is_coords_pass(
    p: TrackedRenderPass,
    stencil: TextureViewId,
    target: TextureViewId,
    pipeline: CachedPipelineId,
) -> bool {
    &&& p.descriptor.label matches Some(l) && l@ == "outline_coords"@
    &&& p.descriptor.color_attachments@.len() == 1
    &&& p.descriptor.color_attachments@[0].view == target
    &&& p.descriptor.color_attachments@[0].resolve_target is None
    &&& p.descriptor.color_attachments@[0].ops.load == LoadOp::Clear(spec_sentinel())
    &&& p.descriptor.color_attachments@[0].ops.store == true
    &&& p.descriptor.depth_stencil_attachment matches Some(a) && {
        &&& a.view == stencil
        &&& a.depth_ops is None
        &&& a.stencil_ops matches Some(o) && o.load is Load && o.store == false
    }
    &&& p.pipeline == Some(pipeline)
    &&& p.stencil_reference == STENCIL_REFERENCE
    &&& p.draws@ =~= seq![spec_fullscreen_draw()]
}

/// The seed-generation node. Stateless: everything it works on reaches it
/// through its slots and the resources handed to [`CoordsNode::run`].
pub struct CoordsNode;

impl CoordsNode {
    /// Name of the node's input slot carrying the stencil view.
    pub const IN_STENCIL: &'static str = "in_stencil";

    /// Name of the node's output slot carrying the seed-coordinate view.
    pub const OUT_COORDS: &'static str = "out_coords";

    /// The node's declared input slots: one texture view, the stencil
    /// mask produced upstream.
    pub fn input(&self) -> (r: Vec<SlotInfo>)
        ensures
            r@.len() == 1,
            r@[0].name@ == "in_stencil"@,
            r@[0].slot_type == SlotType::TextureView,
    {
        let mut slots: Vec<SlotInfo> = Vec::new();
        slots.push(SlotInfo::new(Self::IN_STENCIL, SlotType::TextureView));
        slots
    }

    /// The node's declared output slots: one texture view, the seed
    /// coordinates consumed by the jump-flood passes.
    pub fn output(&self) -> (r: Vec<SlotInfo>)
        ensures
            r@.len() == 1,
            r@[0].name@ == "out_coords"@,
            r@[0].slot_type == SlotType::TextureView,
    {
        let mut slots: Vec<SlotInfo> = Vec::new();
        slots.push(SlotInfo::new(Self::OUT_COORDS, SlotType::TextureView));
        slots
    }

    /// Runs the node for one frame.
    ///
    /// Whatever else happens, the bound inputs are never touched, and the
    /// fixed output view is published first, so downstream nodes resolve a
    /// value even on frames where no draw is recorded. The run fails
    /// exactly when the graph is mis-wired: the output slot is missing or
    /// the stencil input was never bound. With the wiring intact the run
    /// succeeds, and the command stream either grows by exactly the one
    /// seed-generation pass (pipeline compiled) or stays exactly as it was
    /// (pipeline still compiling).
    pub fn run(
        &self,
        graph: &mut RenderGraphContext,
        render_context: &mut RenderContext,
        res: &OutlineResources,
        pipeline: &CoordsPipeline,
        cache: &PipelineCache,
    ) -> (r: Result<(), NodeRunError>)
        requires
            cache.inv(),
        ensures
            final(graph).inputs@ == old(graph).inputs@,
            r is Ok <==> old(graph).outputs@.len() > 0 && old(graph).spec_input_bound(
                IN_STENCIL_SLOT as int,
            ),
            old(graph).outputs@.len() > 0 ==> final(graph).outputs@ == old(
                graph,
            ).outputs@.update(OUT_COORDS_SLOT as int, Some(res.jfa_primary_output)),
            old(graph).outputs@.len() == 0 ==> r == Err::<(), NodeRunError>(
                NodeRunError::OutputSlotError,
            ) && final(graph).outputs@ == old(graph).outputs@,
            old(graph).outputs@.len() > 0 && !old(graph).spec_input_bound(IN_STENCIL_SLOT as int)
                ==> r == Err::<(), NodeRunError>(NodeRunError::InputSlotError),
            r is Err || !cache.spec_is_ready(pipeline.cached)
                ==> final(render_context).command_encoder.passes@ == old(
                render_context,
            ).command_encoder.passes@,
            r is Ok && cache.spec_is_ready(pipeline.cached) ==> {
                let passes = final(render_context).command_encoder.passes@;
                &&& passes == old(render_context).command_encoder.passes@.push(passes.last())
                &&& is_coords_pass(
                    passes.last(),
                    old(graph).spec_input(IN_STENCIL_SLOT as int),
                    res.jfa_primary_output,
                    pipeline.cached,
                )
            },
    {
        match graph.set_output(OUT_COORDS_SLOT, res.jfa_primary_output) {
            Ok(()) => (),
            Err(e) => {
                return Err(e);
            },
        }
        let stencil = match graph.get_input_texture(IN_STENCIL_SLOT) {
            Ok(view) => view,
            Err(e) => {
                return Err(e);
            },
        };
        match cache.get(pipeline.cached) {
            Some(_) => (),
            // Still queued: skip the draw, the published output keeps the
            // graph's data-flow contract satisfied.
            None => {
                return Ok(());
            },
        }
        let descriptor = RenderPassDescriptor {
            label: Some("outline_coords"),
            color_attachments: {
                let mut attachments: Vec<RenderPassColorAttachment> = Vec::new();
                attachments.push(
                    RenderPassColorAttachment {
                        view: res.jfa_primary_output,
                        resolve_target: None,
                        ops: Operations { load: LoadOp::Clear(sentinel()), store: true },
                    },
                );
                attachments
            },
            depth_stencil_attachment: Some(
                RenderPassDepthStencilAttachment {
                    view: stencil,
                    depth_ops: None,
                    stencil_ops: Some(Operations { load: LoadOp::Load, store: false }),
                },
            ),
        };
        let mut tracked_pass = TrackedRenderPass::new(descriptor);
        tracked_pass.set_render_pipeline(pipeline.cached);
        tracked_pass.set_stencil_reference(STENCIL_REFERENCE);
        tracked_pass.draw(0, 3, 0, 1);
        proof {
            assert(tracked_pass.draws@ =~= seq![spec_fullscreen_draw()]);
        }
        render_context.command_encoder.finish_pass(tracked_pass);
        Ok(())
    }
}

} // verus!
