//! Seed-generation stage of a jump-flood outline renderer.
//!
//! A stencil mask marks which screen pixels belong to an outlined object.
//! This stage turns that mask into a seed texture: every marked pixel is
//! eligible to receive a screen-space seed coordinate from the fragment
//! stage, and every other pixel keeps a sentinel value that downstream
//! jump-flood passes read as "no seed here".
//!
//! The crate models the pieces the stage is built from — an immutable
//! pipeline descriptor compiled asynchronously by a cache, typed graph
//! slots, and a recorded render pass — as plain data, and proves the
//! stage's contract over them: what the node publishes and records each
//! frame, and what a recorded pass does to the attached textures.

pub mod graph;
pub mod node;
pub mod pass;
pub mod pipeline;
pub mod render;

pub use node::CoordsNode;
pub use pipeline::CoordsPipeline;
