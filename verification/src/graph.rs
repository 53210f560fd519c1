//! Typed data-flow slots between render-graph nodes.
//!
//! A node declares named, typed input and output slots; an external
//! scheduler runs the nodes of a frame in dependency order and carries the
//! slot values between them. [`RenderGraphContext`] is one node's window
//! onto that flow: the values bound to its input slots and the values it
//! has published on its output slots, both addressed by the slot's
//! position in the node's declaration.

use vstd::prelude::*;

verus! {

/// The kind of value a slot carries.
#[derive(Clone, Copy, Debug, PartialEq, Eq, Structural)]
pub enum SlotType {
    Buffer,
    TextureView,
    Sampler,
    Entity,
}

/// Declaration of one slot: its name and the kind of value it carries.
#[derive(Clone, Copy, Debug, PartialEq, Eq)]
pub struct SlotInfo {
    pub name: &'static str,
    pub slot_type: SlotType,
}

impl SlotInfo {
    /// A slot declaration with the given name and type.
    pub fn new(name: &'static str, slot_type: SlotType) -> (s: SlotInfo)
        ensures
            s.name@ == name@,
            s.slot_type == slot_type,
    {
        SlotInfo { name, slot_type }
    }
}

/// Identifies one texture view owned by an external resource manager. The
/// graph passes views between nodes by this plain value; the texels behind
/// a view live in the textures of [`crate::pass`].
#[derive(Clone, Copy, Debug, PartialEq, Eq, Structural, Hash)]
pub struct TextureViewId {
    pub id: u64,
}

/// Why a node's execution aborted the frame's graph run. Both variants
/// mean the graph is mis-wired; neither is a runtime condition a node
/// recovers from.
#[derive(Clone, Copy, Debug, PartialEq, Eq, Structural)]
pub enum NodeRunError {
    /// A required input slot carried no value.
    InputSlotError,
    /// The node addressed an output slot it never declared.
    OutputSlotError,
}

/// One node's view of the frame's slot values: `inputs[i]` is what the
/// scheduler bound to the node's `i`-th declared input slot, `outputs[i]`
/// what the node has published on its `i`-th declared output slot.
#[derive(Debug)]
pub struct RenderGraphContext {
    pub inputs: Vec<Option<TextureViewId>>,
    pub outputs: Vec<Option<TextureViewId>>,
}

impl RenderGraphContext {
    /// Whether input slot `index` exists and carries a value.
    pub open spec fn spec_input_bound(self, index: int) -> bool {
        0 <= index < self.inputs@.len() && self.inputs@[index] is Some
    }

    /// The value bound to input slot `index`.
    pub open spec fn spec_input(self, index: int) -> TextureViewId
        recommends
            self.spec_input_bound(index),
    {
        match self.inputs@[index] {
            Some(view) => view,
            None => TextureViewId { id: 0 },
        }
    }

    /// A context for a node with `n_inputs` input slots and `n_outputs`
    /// output slots, all still unbound.
    pub fn new(n_inputs: usize, n_outputs: usize) -> (g: RenderGraphContext)
        ensures
            g.inputs@.len() == n_inputs,
            g.outputs@.len() == n_outputs,
            forall|i: int| 0 <= i < n_inputs ==> g.inputs@[i] is None,
            forall|i: int| 0 <= i < n_outputs ==> g.outputs@[i] is None,
    {
        let mut inputs: Vec<Option<TextureViewId>> = Vec::new();
        let mut outputs: Vec<Option<TextureViewId>> = Vec::new();
        while inputs.len() < n_inputs
            invariant
                inputs@.len() <= n_inputs,
                forall|i: int| 0 <= i < inputs@.len() ==> inputs@[i] is None,
            decreases n_inputs - inputs@.len(),
        {
            inputs.push(None);
        }
        while outputs.len() < n_outputs
            invariant
                outputs@.len() <= n_outputs,
                forall|i: int| 0 <= i < outputs@.len() ==> outputs@[i] is None,
            decreases n_outputs - outputs@.len(),
        {
            outputs.push(None);
        }
        RenderGraphContext { inputs, outputs }
    }

    /// Binds `view` to input slot `index`; how the scheduler hands a node
    /// the value an upstream node produced.
    pub fn set_input(&mut self, index: usize, view: TextureViewId)
        requires
            index < old(self).inputs@.len(),
        ensures
            final(self).inputs@ == old(self).inputs@.update(index as int, Some(view)),
            final(self).outputs@ == old(self).outputs@,
    {
        self.inputs.set(index, Some(view));
    }

    /// Publishes `view` on output slot `index`, so downstream nodes can
    /// resolve it. Fails exactly when the node addresses a slot it never
    /// declared; the bound inputs are never touched.
    pub fn set_output(&mut self, index: usize, view: TextureViewId) -> (r: Result<
        (),
        NodeRunError,
    >)
        ensures
            final(self).inputs@ == old(self).inputs@,
            index < old(self).outputs@.len() ==> r is Ok && final(self).outputs@ == old(
                self,
            ).outputs@.update(index as int, Some(view)),
            index >= old(self).outputs@.len() ==> r == Err::<(), NodeRunError>(
                NodeRunError::OutputSlotError,
            ) && final(self).outputs@ == old(self).outputs@,
    {
        if index < self.outputs.len() {
            self.outputs.set(index, Some(view));
            Ok(())
        } else {
            Err(NodeRunError::OutputSlotError)
        }
    }

    /// Resolves the value bound to input slot `index`. Fails exactly when
    /// the slot does not exist or the upstream producer bound nothing,
    /// both contract violations by the graph wiring.
    pub fn get_input_texture(&self, index: usize) -> (r: Result<TextureViewId, NodeRunError>)
        ensures
            self.spec_input_bound(index as int) ==> r == Ok::<TextureViewId, NodeRunError>(
                self.spec_input(index as int),
            ),
            !self.spec_input_bound(index as int) ==> r == Err::<TextureViewId, NodeRunError>(
                NodeRunError::InputSlotError,
            ),
    {
        if index < self.inputs.len() {
            match self.inputs[index] {
                Some(view) => Ok(view),
                None => Err(NodeRunError::InputSlotError),
            }
        } else {
            Err(NodeRunError::InputSlotError)
        }
    }
}

} // verus!
