use vstd::prelude::*;

verus! {

/// Number of cells of a density grid along each axis.
#[derive(Clone, Copy, Debug, PartialEq, Eq, Structural)]
pub struct GridDensity {
    pub x: u32,
    pub y: u32,
    pub z: u32,
}

/// A request to extract the surface of one asset.
///
/// `ready` is set once the asset's bindings have been prepared.
#[derive(Clone, Copy, Debug, PartialEq, Eq, Structural)]
pub struct Isosurface {
    pub asset_id: u64,
    pub ready: bool,
}

/// The three compute stages run for each isosurface, in this order.
#[derive(Clone, Copy, Debug, PartialEq, Eq, Structural)]
pub enum Stage {
    /// Places candidate surface vertices in each grid cell.
    FindVertices,
    /// Joins neighbouring cells' vertices into triangles.
    ConnectVertices,
    /// Copies the emitted counts into the indirect argument buffer.
    PrepareIndirect,
}

/// A command recorded into the frame's compute pass.
#[derive(Clone, Copy, Debug, PartialEq, Eq, Structural)]
pub enum PassCommand {
    /// Bind the bind group of `asset_id` at binding slot `slot`.
    SetBindGroup { slot: u32, asset_id: u64 },
    /// Run `stage` over `x * y * z` workgroups.
    Dispatch { stage: Stage, x: u32, y: u32, z: u32 },
}

/// Why a frame stopped recording before the end of the work queue.
#[derive(Clone, Copy, Debug, PartialEq, Eq, Structural)]
pub enum FrameError {
    /// A ready isosurface names an asset that the grid registry lacks.
    MissingAsset { asset_id: u64 },
    /// A ready isosurface names an asset that has no bind group.
    MissingBindGroup { asset_id: u64 },
}

/// The diagnostic line reported for an error.
pub open spec fn error_message(e: FrameError) -> Seq<char> {
    match e {
        FrameError::MissingAsset { .. } => "missing isosurface asset"@,
        FrameError::MissingBindGroup { .. } => "missing isosurface compute bind group"@,
    }
}

impl FrameError {
    /// The asset whose lookup failed.
    pub fn asset_id(&self) -> (r: u64)
        ensures
            r == match *self {
                FrameError::MissingAsset { asset_id } => asset_id,
                FrameError::MissingBindGroup { asset_id } => asset_id,
            },
    {
        match *self {
            FrameError::MissingAsset { asset_id } => asset_id,
            FrameError::MissingBindGroup { asset_id } => asset_id,
        }
    }

    /// The diagnostic line to report for this error.
    pub fn message(&self) -> (r: &'static str)
        ensures
            r@ == error_message(*self),
    {
        match *self {
            FrameError::MissingAsset { .. } => "missing isosurface asset",
            FrameError::MissingBindGroup { .. } => "missing isosurface compute bind group",
        }
    }
}

/// The commands recorded for one isosurface whose asset and bind group
/// were both found: bind, then the three stages in order, the first two
/// sized by the grid density and the last one a single workgroup.
pub open spec fn isosurface_commands(asset_id: u64, d: GridDensity) -> Seq<PassCommand> {
    seq![
        PassCommand::SetBindGroup { slot: 0, asset_id },
        PassCommand::Dispatch { stage: Stage::FindVertices, x: d.x, y: d.y, z: d.z },
        PassCommand::Dispatch { stage: Stage::ConnectVertices, x: d.x, y: d.y, z: d.z },
        PassCommand::Dispatch { stage: Stage::PrepareIndirect, x: 1, y: 1, z: 1 },
    ]
}

} // verus!
