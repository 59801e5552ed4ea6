//! Per-frame scheduling of GPU isosurface extraction.
//!
//! Each frame, every ready isosurface of the work queue has its asset's
//! bind group bound and three compute stages dispatched in one pass:
//! vertex search and vertex connection, both sized by the asset's grid
//! density, then a single-workgroup pass that fills the indirect buffer.
//! The library decides which commands a frame records; the host replays
//! them on its GPU pass.
mod laws;
mod model;
mod node;
mod pipelines;
mod queue;
mod registry;

pub use laws::{
    command_blocks, lemma_missing_asset_halts, lemma_missing_bind_group_halts,
    lemma_not_ready_is_ignored, lemma_planning_is_repeatable, lemma_ready_isosurfaces_dispatch,
    ready_ids,
};
pub use model::{
    error_message, isosurface_commands, FrameError, GridDensity, Isosurface, PassCommand, Stage,
};
pub use node::{
    frame_of, lemma_error_is_final, FrameModel, FramePlan, IsosurfaceComputeNode,
    IsosurfaceComputeNodeLabel,
};
pub use pipelines::{pipeline_of, ComputePipelines};
pub use queue::WorkQueue;
pub use registry::{BindingTable, GridRegistry};
