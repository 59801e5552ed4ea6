use crate::model::{isosurface_commands, FrameError, GridDensity, Isosurface, PassCommand, Stage};
use crate::pipelines::ComputePipelines;
use crate::queue::WorkQueue;
use crate::registry::{BindingTable, GridRegistry};
use vstd::prelude::*;

verus! {

/// What a frame records, as mathematical values.
pub struct FrameModel {
    pub commands: Seq<PassCommand>,
    pub completed: Seq<u64>,
    pub error: Option<FrameError>,
}

/// The frame recorded for `queue`, given the loaded grids and the assets
/// that have a bind group.
///
/// Entries are taken in order. One that is not ready is passed over. A
/// ready one records its bind and three dispatches and is counted as
/// completed, unless its grid or its bind group is missing: then that
/// error is reported once and nothing after it is recorded, while what
/// came before it stays.
pub open spec fn frame_of(queue: Seq<Isosurface>, grids: Map<u64, GridDensity>, bound: Set<u64>) -> FrameModel
    decreases queue.len(),
{
    if queue.len() == 0 {
        FrameModel { commands: Seq::empty(), completed: Seq::empty(), error: None }
    } else {
        let before = frame_of(queue.drop_last(), grids, bound);
        let iso = queue.last();
        if before.error is Some || !iso.ready {
            before
        } else if !grids.contains_key(iso.asset_id) {
            FrameModel {
                commands: before.commands,
                completed: before.completed,
                error: Some(FrameError::MissingAsset { asset_id: iso.asset_id }),
            }
        } else if !bound.contains(iso.asset_id) {
            FrameModel {
                commands: before.commands,
                completed: before.completed,
                error: Some(FrameError::MissingBindGroup { asset_id: iso.asset_id }),
            }
        } else {
            FrameModel {
                commands: before.commands + isosurface_commands(iso.asset_id, grids[iso.asset_id]),
                completed: before.completed.push(iso.asset_id),
                error: None,
            }
        }
    }
}

/// Once a prefix of the queue has stopped on an error, the whole queue
/// records exactly what that prefix recorded.
pub proof fn lemma_error_is_final(
    queue: Seq<Isosurface>,
    k: int,
    grids: Map<u64, GridDensity>,
    bound: Set<u64>,
)
    requires
        0 <= k <= queue.len(),
        frame_of(queue.take(k), grids, bound).error is Some,
    ensures
        frame_of(queue, grids, bound) == frame_of(queue.take(k), grids, bound),
    decreases queue.len(),
{
    if k == queue.len() {
        assert(queue.take(k) =~= queue);
    } else {
        assert(queue.drop_last().take(k) =~= queue.take(k));
        lemma_error_is_final(queue.drop_last(), k, grids, bound);
    }
}

/// The commands, completions and error of one frame.
pub struct FramePlan {
    /// Commands to record into the frame's compute pass, in order.
    pub commands: Vec<PassCommand>,
    /// Asset ids of the isosurfaces dispatched, in order.
    pub completed: Vec<u64>,
    /// The lookup failure that ended the frame early, if any.
    pub error: Option<FrameError>,
}

impl View for FramePlan {
    type V = FrameModel;

    open spec fn view(&self) -> FrameModel {
        FrameModel { commands: self.commands@, completed: self.completed@, error: self.error }
    }
}

/// The render-graph node that schedules isosurface extraction each frame.
#[derive(Clone, Copy, Debug, Default)]
pub struct IsosurfaceComputeNode;

/// The label of [`IsosurfaceComputeNode`] in the render graph.
#[derive(Clone, Debug, Hash, PartialEq, Eq)]
pub struct IsosurfaceComputeNodeLabel;

impl IsosurfaceComputeNode {
    /// Plans the frame's compute pass over the work queue.
    pub fn plan_frame<G>(&self, queue: &WorkQueue, grids: &GridRegistry, bindings: &BindingTable<G>) -> (plan: FramePlan)
        ensures
            plan@ == frame_of(queue@, grids@, bindings@.dom()),
    {
        let ghost q = queue@;
        let ghost bound = bindings@.dom();
        let mut commands: Vec<PassCommand> = Vec::new();
        let mut completed: Vec<u64> = Vec::new();
        let n = queue.len();
        let mut i: usize = 0;
        while i < n
            invariant
                0 <= i <= n,
                n == q.len(),
                q == queue@,
                bound == bindings@.dom(),
                frame_of(q.take(i as int), grids@, bound) == (FrameModel {
                    commands: commands@,
                    completed: completed@,
                    error: None,
                }),
            decreases n - i,
        {
            let iso = queue.get(i);
            proof {
                assert(q.take(i + 1).drop_last() =~= q.take(i as int));
                assert(q.take(i + 1).last() == iso);
            }
            if iso.ready {
                let density = match grids.get(iso.asset_id) {
                    Some(d) => d,
                    None => {
                        let plan = FramePlan {
                            commands,
                            completed,
                            error: Some(FrameError::MissingAsset { asset_id: iso.asset_id }),
                        };
                        proof {
                            lemma_error_is_final(q, i + 1, grids@, bound);
                        }
                        return plan;
                    },
                };
                if !bindings.contains(iso.asset_id) {
                    let plan = FramePlan {
                        commands,
                        completed,
                        error: Some(FrameError::MissingBindGroup { asset_id: iso.asset_id }),
                    };
                    proof {
                        lemma_error_is_final(q, i + 1, grids@, bound);
                    }
                    return plan;
                }
                let ghost before = commands@;
                commands.push(PassCommand::SetBindGroup { slot: 0, asset_id: iso.asset_id });
                commands.push(
                    PassCommand::Dispatch {
                        stage: Stage::FindVertices,
                        x: density.x,
                        y: density.y,
                        z: density.z,
                    },
                );
                commands.push(
                    PassCommand::Dispatch {
                        stage: Stage::ConnectVertices,
                        x: density.x,
                        y: density.y,
                        z: density.z,
                    },
                );
                commands.push(
                    PassCommand::Dispatch { stage: Stage::PrepareIndirect, x: 1, y: 1, z: 1 },
                );
                completed.push(iso.asset_id);
                assert(commands@ =~= before + isosurface_commands(iso.asset_id, density));
            }
            i += 1;
        }
        assert(q.take(n as int) =~= q);
        FramePlan { commands, completed, error: None }
    }

    /// Runs one frame: resolves the three stage pipelines, then plans the
    /// pass.
    ///
    /// When any stage is not compiled yet the frame is skipped whole: no
    /// pass is opened and nothing is reported.
    pub fn run<P, G>(
        &self,
        find_vertices: Option<P>,
        connect_vertices: Option<P>,
        prepare_indirect: Option<P>,
        queue: &WorkQueue,
        grids: &GridRegistry,
        bindings: &BindingTable<G>,
    ) -> (r: Option<(ComputePipelines<P>, FramePlan)>)
        ensures
            r is Some <==> (find_vertices is Some && connect_vertices is Some && prepare_indirect is Some),
            r matches Some((p, plan)) ==> {
                &&& p.find_vertices == find_vertices->0
                &&& p.connect_vertices == connect_vertices->0
                &&& p.prepare_indirect == prepare_indirect->0
                &&& plan@ == frame_of(queue@, grids@, bindings@.dom())
            },
    {
        match ComputePipelines::resolve(find_vertices, connect_vertices, prepare_indirect) {
            Some(pipelines) => Some((pipelines, self.plan_frame(queue, grids, bindings))),
            None => None,
        }
    }
}

} // verus!
