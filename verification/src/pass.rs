//! What a recorded pass does to its attached textures.
//!
//! The GPU work this stage records is simple enough to give an exact
//! meaning: load (or clear) the color attachment, run the full-screen
//! draw through the stencil test, and commit only what the store
//! operations keep. [`execute_pass`] is that meaning as a verified
//! interpreter over per-pixel texture planes; the lemmas at the end state
//! the stage's guarantees — masked pixels take the fragment output, all
//! others keep the sentinel, and neither stencil nor depth plane ever
//! changes.
//!
//! Two conventions of the modeled draw come from the external shader
//! interface and are taken as the interpreter's scope, not proved: every
//! draw is the front-facing full-screen triangle (so it covers every pixel
//! of the attachments and is tested against the front stencil face), and a
//! pass whose stencil store is off leaves the stencil plane as it found
//! it.

use crate::graph::TextureViewId;
use crate::node::{is_coords_pass, spec_fullscreen_draw};
use crate::pipeline::{
    CachedPipelineId, CompareFunction, CoordsPipelineConfig, DepthStencilState,
    RenderPipelineDescriptor, is_coords_descriptor,
};
use crate::render::{LoadOp, Texel, TrackedRenderPass, spec_sentinel};
use vstd::prelude::*;

verus! {

/// Stencil value with all bits of the 8-bit stencil plane set: the mark
/// the upstream rasterizer leaves on every pixel of an outlined object.
pub const STENCIL_MARKED: u8 = 0xFF;

/// Per-pixel planes of one combined depth-stencil texture, in row-major
/// order. The depth plane holds raw 24-bit values.
#[derive(Debug)]
pub struct DepthStencilTexture {
    pub depth: Vec<u32>,
    pub stencil: Vec<u8>,
}

/// Per-pixel texels of one seed-coordinate texture, in row-major order.
#[derive(Debug)]
pub struct ColorTexture {
    pub texels: Vec<Texel>,
}

/// Whether `reference OP stored` holds for the given comparison.
pub open spec fn spec_compare(c: CompareFunction, reference: u32, stored: u32) -> bool {
    match c {
        CompareFunction::Never => false,
        CompareFunction::Less => reference < stored,
        CompareFunction::Equal => reference == stored,
        CompareFunction::LessEqual => reference <= stored,
        CompareFunction::Greater => reference > stored,
        CompareFunction::NotEqual => reference != stored,
        CompareFunction::GreaterEqual => reference >= stored,
        CompareFunction::Always => true,
    }
}

/// The stencil test for a front-facing fragment: the reference and the
/// stored value, both cut to the read mask and to the 8 bits the stencil
/// plane holds, under the front face's comparison.
pub open spec fn spec_stencil_test(ds: DepthStencilState, reference: u32, stored: u8) -> bool {
    spec_compare(
        ds.stencil.front.compare,
        reference & ds.stencil.read_mask & 0xFF,
        (stored as u32) & ds.stencil.read_mask & 0xFF,
    )
}

/// Executable counterpart of [`spec_stencil_test`].
pub fn stencil_test(ds: &DepthStencilState, reference: u32, stored: u8) -> (b: bool)
    ensures
        b == spec_stencil_test(*ds, reference, stored),
{
    let masked_reference = reference & ds.stencil.read_mask & 0xFF;
    let masked_stored = (stored as u32) & ds.stencil.read_mask & 0xFF;
    match ds.stencil.front.compare {
        CompareFunction::Never => false,
        CompareFunction::Less => masked_reference < masked_stored,
        CompareFunction::Equal => masked_reference == masked_stored,
        CompareFunction::LessEqual => masked_reference <= masked_stored,
        CompareFunction::Greater => masked_reference > masked_stored,
        CompareFunction::NotEqual => masked_reference != masked_stored,
        CompareFunction::GreaterEqual => masked_reference >= masked_stored,
        CompareFunction::Always => true,
    }
}

/// A fragment output written over a base texel under the target's write
/// mask: each channel takes the fragment value only where its mask bit is
/// set.
pub open spec fn spec_masked_write(base: Texel, frag: Texel, write_mask: u32) -> Texel {
    Texel {
        r: if write_mask & crate::pipeline::COLOR_WRITE_RED != 0 {
            frag.r
        } else {
            base.r
        },
        g: if write_mask & crate::pipeline::COLOR_WRITE_GREEN != 0 {
            frag.g
        } else {
            base.g
        },
    }
}

/// Executable counterpart of [`spec_masked_write`].
pub fn masked_write(base: Texel, frag: Texel, write_mask: u32) -> (t: Texel)
    ensures
        t == spec_masked_write(base, frag, write_mask),
{
    Texel {
        r: if write_mask & crate::pipeline::COLOR_WRITE_RED != 0 {
            frag.r
        } else {
            base.r
        },
        g: if write_mask & crate::pipeline::COLOR_WRITE_GREEN != 0 {
            frag.g
        } else {
            base.g
        },
    }
}

/// The pass and pipeline shapes [`execute_pass`] gives a meaning to: one
/// color attachment; a depth-stencil attachment whose depth plane is left
/// alone, whose stencil plane is loaded and never stored, and whose
/// pipeline neither tests nor writes depth and does not blend; and only
/// full-screen-triangle draws.
pub open spec fn pass_executable(p: TrackedRenderPass, d: RenderPipelineDescriptor) -> bool {
    &&& p.descriptor.color_attachments@.len() == 1
    &&& p.descriptor.depth_stencil_attachment matches Some(a) && {
        &&& a.depth_ops is None
        &&& a.stencil_ops matches Some(o) && o.store == false
    }
    &&& d.depth_stencil matches Some(ds) && !ds.depth_write_enabled && ds.depth_compare
        == CompareFunction::Always
    &&& d.fragment matches Some(f) && f.targets@.len() == 1 && !f.targets@[0].blend_enabled
    &&& forall|i: int| 0 <= i < p.draws@.len() ==> p.draws@[i] == spec_fullscreen_draw()
    &&& p.draws@.len() > 0 ==> p.pipeline is Some
}

/// The depth-stencil state of a descriptor the interpreter accepts.
pub open spec fn spec_depth_stencil_of(d: RenderPipelineDescriptor) -> DepthStencilState
    recommends
        d.depth_stencil is Some,
{
    match d.depth_stencil {
        Some(ds) => ds,
        None => arbitrary(),
    }
}

/// The color write mask of a descriptor the interpreter accepts.
pub open spec fn spec_write_mask_of(d: RenderPipelineDescriptor) -> u32
    recommends
        d.fragment matches Some(f) && f.targets@.len() == 1,
{
    match d.fragment {
        Some(f) => f.targets@[0].write_mask,
        None => arbitrary(),
    }
}

/// The color attachment's contents right after the pass begins: the clear
/// color everywhere, or whatever the texture already held.
pub open spec fn spec_loaded_color(p: TrackedRenderPass, prev: Seq<Texel>) -> Seq<Texel> {
    match p.descriptor.color_attachments@[0].ops.load {
        LoadOp::Clear(c) => Seq::new(prev.len(), |i: int| c),
        LoadOp::Load => prev,
    }
}

/// The color attachment's contents after the pass: the loaded contents,
/// overwritten at every pixel the stencil test admits by the fragment
/// stage's output under the target's write mask. With no draw recorded,
/// the loaded contents stand as they are.
pub open spec fn spec_pass_color(
    p: TrackedRenderPass,
    d: RenderPipelineDescriptor,
    prev: Seq<Texel>,
    stencil: Seq<u8>,
    frag: Seq<Texel>,
) -> Seq<Texel> {
    let base = spec_loaded_color(p, prev);
    if p.draws@.len() == 0 {
        base
    } else {
        Seq::new(
            base.len(),
            |i: int|
                if spec_stencil_test(spec_depth_stencil_of(d), p.stencil_reference, stencil[i]) {
                    spec_masked_write(base[i], frag[i], spec_write_mask_of(d))
                } else {
                    base[i]
                },
        )
    }
}

/// Replays a recorded pass on the textures behind its attachments.
///
/// `desc` is the pipeline state the pass's handle resolved to; `frag` is
/// what the external fragment stage would output at each pixel, a value
/// this spec leaves to the shader. The depth and stencil planes come out
/// exactly as they went in: the pass may read the stencil plane but never
/// keeps a write to either.
pub fn execute_pass(
    pass: &TrackedRenderPass,
    desc: &RenderPipelineDescriptor,
    ds: &mut DepthStencilTexture,
    color: &mut ColorTexture,
    frag: &Vec<Texel>,
)
    requires
        pass_executable(*pass, *desc),
        old(ds).stencil@.len() == old(color).texels@.len(),
        old(ds).depth@.len() == old(color).texels@.len(),
        frag@.len() == old(color).texels@.len(),
    ensures
        final(ds).depth@ == old(ds).depth@,
        final(ds).stencil@ == old(ds).stencil@,
        final(color).texels@ == spec_pass_color(
            *pass,
            *desc,
            old(color).texels@,
            old(ds).stencil@,
            frag@,
        ),
{
    let ghost prev = color.texels@;
    // Load phase: a clear overwrites every texel, a load keeps them.
    match pass.descriptor.color_attachments[0].ops.load {
        LoadOp::Clear(c) => {
            let mut i: usize = 0;
            while i < color.texels.len()
                invariant
                    color.texels@.len() == prev.len(),
                    i <= prev.len(),
                    pass.descriptor.color_attachments@[0].ops.load == LoadOp::Clear(c),
                    forall|j: int| 0 <= j < i ==> color.texels@[j] == c,
                    forall|j: int| i <= j < prev.len() ==> color.texels@[j] == prev[j],
                decreases prev.len() - i,
            {
                color.texels.set(i, c);
                i = i + 1;
            }
            proof {
                assert(color.texels@ =~= spec_loaded_color(*pass, prev));
            }
        },
        LoadOp::Load => {
            proof {
                assert(color.texels@ =~= spec_loaded_color(*pass, prev));
            }
        },
    }
    // Draw phase: the full-screen triangle visits every pixel; the stencil
    // test decides which fragments land.
    if pass.draws.len() > 0 {
        let ghost base = color.texels@;
        let dss = match desc.depth_stencil {
            Some(dss) => dss,
            // pass_executable rules a missing depth-stencil state out.
            None => vstd::pervasive::unreached(),
        };
        let write_mask = match &desc.fragment {
            Some(f) => f.targets[0].write_mask,
            // pass_executable rules a missing fragment state out.
            None => vstd::pervasive::unreached(),
        };
        let mut i: usize = 0;
        while i < color.texels.len()
            invariant
                color.texels@.len() == base.len(),
                ds.stencil@.len() == base.len(),
                frag@.len() == base.len(),
                i <= base.len(),
                dss == spec_depth_stencil_of(*desc),
                write_mask == spec_write_mask_of(*desc),
                forall|j: int|
                    0 <= j < i ==> color.texels@[j] == (if spec_stencil_test(
                        dss,
                        pass.stencil_reference,
                        ds.stencil@[j],
                    ) {
                        spec_masked_write(base[j], frag@[j], write_mask)
                    } else {
                        base[j]
                    }),
                forall|j: int| i <= j < base.len() ==> color.texels@[j] == base[j],
            decreases base.len() - i,
        {
            if stencil_test(&dss, pass.stencil_reference, ds.stencil[i]) {
                let written = masked_write(color.texels[i], frag[i], write_mask);
                color.texels.set(i, written);
            }
            i = i + 1;
        }
        proof {
            assert(color.texels@ =~= spec_pass_color(*pass, *desc, prev, ds.stencil@, frag@));
        }
    } else {
        proof {
            assert(color.texels@ =~= spec_pass_color(*pass, *desc, prev, ds.stencil@, frag@));
        }
    }
}

/// The seed-generation pass lies within [`execute_pass`]'s scope, and its
/// attachment operations are the read-only ones: no depth operations and
/// no stencil store. Together with [`execute_pass`]'s unconditional
/// guarantee on the depth and stencil planes, this is the statement that
/// the pass never modifies the bound stencil texture's contents and never
/// writes the depth component of the attachment.
pub proof fn lemma_coords_pass_readonly_mask(
    p: TrackedRenderPass,
    d: RenderPipelineDescriptor,
    config: CoordsPipelineConfig,
    pipeline: CachedPipelineId,
    stencil_view: TextureViewId,
    target_view: TextureViewId,
)
    requires
        is_coords_pass(p, stencil_view, target_view, pipeline),
        is_coords_descriptor(d, config),
    ensures
        pass_executable(p, d),
        p.descriptor.depth_stencil_attachment matches Some(a) && a.depth_ops is None && (
        a.stencil_ops matches Some(o) && !o.store),
        spec_depth_stencil_of(d).stencil.write_mask == 0,
        !spec_depth_stencil_of(d).depth_write_enabled,
{
    assert(p.draws@ == seq![spec_fullscreen_draw()]);
    assert(p.draws@.len() == 1);
    assert(p.draws@[0] == spec_fullscreen_draw());
}

/// How one marked pixel fares under the seed pipeline's stencil test: the
/// all-bits reference, cut to the read and plane masks, equals the stored
/// value exactly when the upstream rasterizer stamped all bits into it.
pub proof fn lemma_coords_stencil_test(d: RenderPipelineDescriptor, config: CoordsPipelineConfig)
    requires
        is_coords_descriptor(d, config),
    ensures
        forall|s: u8|
            spec_stencil_test(spec_depth_stencil_of(d), 0xFFFF_FFFF, s) <==> s == STENCIL_MARKED,
{
    let dss = spec_depth_stencil_of(d);
    assert(0xFFFF_FFFFu32 & 0xFFFF_FFFFu32 & 0xFFu32 == 0xFFu32) by (bit_vector);
    assert(forall|s: u8| #[trigger] ((s as u32) & 0xFFFF_FFFFu32 & 0xFFu32) == s as u32)
        by (bit_vector);
    assert forall|s: u8|
        spec_stencil_test(dss, 0xFFFF_FFFF, s) <==> s == STENCIL_MARKED by {
        assert(s as u32 == 0xFF <==> s == STENCIL_MARKED);
    }
}

/// The stencil mask decides every pixel of the seed texture (the
/// masked-draw law): after the seed-generation pass, a pixel whose stencil
/// value is not all-bits-set holds exactly the sentinel, whatever the
/// texture held before, and a pixel whose stencil value is all-bits-set
/// holds exactly the fragment stage's output — the pass neither skips nor
/// masks it.
pub proof fn lemma_masked_draw(
    p: TrackedRenderPass,
    d: RenderPipelineDescriptor,
    config: CoordsPipelineConfig,
    pipeline: CachedPipelineId,
    stencil_view: TextureViewId,
    target_view: TextureViewId,
    prev: Seq<Texel>,
    stencil: Seq<u8>,
    frag: Seq<Texel>,
)
    requires
        is_coords_pass(p, stencil_view, target_view, pipeline),
        is_coords_descriptor(d, config),
        stencil.len() == prev.len(),
        frag.len() == prev.len(),
    ensures
        spec_pass_color(p, d, prev, stencil, frag).len() == prev.len(),
        forall|i: int|
            0 <= i < prev.len() && stencil[i] != STENCIL_MARKED ==> spec_pass_color(
                p,
                d,
                prev,
                stencil,
                frag,
            )[i] == spec_sentinel(),
        forall|i: int|
            0 <= i < prev.len() && stencil[i] == STENCIL_MARKED ==> spec_pass_color(
                p,
                d,
                prev,
                stencil,
                frag,
            )[i] == frag[i],
{
    let result = spec_pass_color(p, d, prev, stencil, frag);
    let base = spec_loaded_color(p, prev);
    assert(p.draws@ == seq![spec_fullscreen_draw()]);
    assert(p.draws@.len() == 1);
    assert(base.len() == prev.len());
    assert(forall|i: int| 0 <= i < prev.len() ==> base[i] == spec_sentinel());
    lemma_coords_stencil_test(d, config);
    assert(spec_write_mask_of(d) == crate::pipeline::COLOR_WRITES_ALL);
    assert(0xFu32 & 0x1u32 != 0) by (bit_vector);
    assert(0xFu32 & 0x2u32 != 0) by (bit_vector);
    assert forall|i: int| 0 <= i < prev.len() && stencil[i] == STENCIL_MARKED implies result[i]
        == frag[i] by {
        assert(result[i] == spec_masked_write(base[i], frag[i], spec_write_mask_of(d)));
        assert(spec_masked_write(base[i], frag[i], 0xF) == Texel { r: frag[i].r, g: frag[i].g });
    }
}

/// An entirely unmarked stencil mask (no outlined pixels) yields a seed
/// texture that is the sentinel everywhere.
pub proof fn lemma_empty_mask_all_sentinel(
    p: TrackedRenderPass,
    d: RenderPipelineDescriptor,
    config: CoordsPipelineConfig,
    pipeline: CachedPipelineId,
    stencil_view: TextureViewId,
    target_view: TextureViewId,
    prev: Seq<Texel>,
    stencil: Seq<u8>,
    frag: Seq<Texel>,
)
    requires
        is_coords_pass(p, stencil_view, target_view, pipeline),
        is_coords_descriptor(d, config),
        stencil.len() == prev.len(),
        frag.len() == prev.len(),
        forall|i: int| 0 <= i < stencil.len() ==> stencil[i] == 0,
    ensures
        spec_pass_color(p, d, prev, stencil, frag) == Seq::new(
            prev.len(),
            |i: int| spec_sentinel(),
        ),
{
    lemma_masked_draw(p, d, config, pipeline, stencil_view, target_view, prev, stencil, frag);
    assert(spec_pass_color(p, d, prev, stencil, frag) =~= Seq::new(
        prev.len(),
        |i: int| spec_sentinel(),
    ));
}

/// An entirely marked stencil mask hands every pixel to the fragment
/// stage: the seed texture comes out equal to the fragment output,
/// whatever that output is — no sentinel pixel remains unless the shader
/// itself wrote one.
pub proof fn lemma_full_mask_all_overwritten(
    p: TrackedRenderPass,
    d: RenderPipelineDescriptor,
    config: CoordsPipelineConfig,
    pipeline: CachedPipelineId,
    stencil_view: TextureViewId,
    target_view: TextureViewId,
    prev: Seq<Texel>,
    stencil: Seq<u8>,
    frag: Seq<Texel>,
)
    requires
        is_coords_pass(p, stencil_view, target_view, pipeline),
        is_coords_descriptor(d, config),
        stencil.len() == prev.len(),
        frag.len() == prev.len(),
        forall|i: int| 0 <= i < stencil.len() ==> stencil[i] == STENCIL_MARKED,
    ensures
        spec_pass_color(p, d, prev, stencil, frag) == frag,
{
    lemma_masked_draw(p, d, config, pipeline, stencil_view, target_view, prev, stencil, frag);
    assert(spec_pass_color(p, d, prev, stencil, frag) =~= frag);
}

} // verus!
