use crate::model::{isosurface_commands, FrameError, GridDensity, Isosurface, PassCommand};
use crate::node::{frame_of, lemma_error_is_final, FrameModel, FramePlan};
use crate::queue::WorkQueue;
use crate::registry::{BindingTable, GridRegistry};
use vstd::prelude::*;

verus! {

/// The asset ids of the ready entries of `queue`, in order.
pub open spec fn ready_ids(queue: Seq<Isosurface>) -> Seq<u64>
    decreases queue.len(),
{
    if queue.len() == 0 {
        Seq::empty()
    } else if queue.last().ready {
        ready_ids(queue.drop_last()).push(queue.last().asset_id)
    } else {
        ready_ids(queue.drop_last())
    }
}

/// The commands of the isosurfaces `ids`, one after the other.
pub open spec fn command_blocks(ids: Seq<u64>, grids: Map<u64, GridDensity>) -> Seq<PassCommand>
    decreases ids.len(),
{
    if ids.len() == 0 {
        Seq::empty()
    } else {
        command_blocks(ids.drop_last(), grids) + isosurface_commands(ids.last(), grids[ids.last()])
    }
}

/// Each dispatched isosurface gets exactly its bind and the three stage
/// dispatches, find then connect then prepare, the first two sized by its
/// grid density and the last one a single workgroup; nothing else is
/// recorded. Every dispatched asset has a grid and a bind group, and when
/// the frame ran to the end every ready entry was dispatched, in order.
pub proof fn lemma_ready_isosurfaces_dispatch(
    queue: Seq<Isosurface>,
    grids: Map<u64, GridDensity>,
    bound: Set<u64>,
)
    ensures
        frame_of(queue, grids, bound).commands == command_blocks(
            frame_of(queue, grids, bound).completed,
            grids,
        ),
        forall|i: int|
            0 <= i < frame_of(queue, grids, bound).completed.len() ==> {
                let id = #[trigger] frame_of(queue, grids, bound).completed[i];
                grids.contains_key(id) && bound.contains(id)
            },
        frame_of(queue, grids, bound).error is None ==> frame_of(queue, grids, bound).completed
            == ready_ids(queue),
    decreases queue.len(),
{
    if queue.len() > 0 {
        lemma_ready_isosurfaces_dispatch(queue.drop_last(), grids, bound);
        let before = frame_of(queue.drop_last(), grids, bound);
        let after = frame_of(queue, grids, bound);
        if after.completed != before.completed {
            assert(after.completed.drop_last() =~= before.completed);
            assert forall|i: int| 0 <= i < after.completed.len() implies {
                let id = #[trigger] after.completed[i];
                grids.contains_key(id) && bound.contains(id)
            } by {
                if i < before.completed.len() {
                    assert(after.completed[i] == before.completed[i]);
                }
            }
        }
    }
}

/// Entries that are not ready have no effect: the frame of a queue is the
/// frame of its ready entries alone, so they record no command and report
/// no error.
pub proof fn lemma_not_ready_is_ignored(
    queue: Seq<Isosurface>,
    grids: Map<u64, GridDensity>,
    bound: Set<u64>,
)
    ensures
        frame_of(queue.filter(|e: Isosurface| e.ready), grids, bound) == frame_of(queue, grids, bound),
    decreases queue.len(),
{
    reveal(Seq::filter);
    if queue.len() > 0 {
        lemma_not_ready_is_ignored(queue.drop_last(), grids, bound);
        let kept = queue.filter(|e: Isosurface| e.ready);
        if queue.last().ready {
            assert(kept.drop_last() =~= queue.drop_last().filter(|e: Isosurface| e.ready));
        }
    }
}

/// A reached ready entry whose asset has no grid reports that one error
/// and ends the frame: whatever follows it records nothing, and what came
/// before it is kept.
pub proof fn lemma_missing_asset_halts(
    before: Seq<Isosurface>,
    entry: Isosurface,
    after: Seq<Isosurface>,
    grids: Map<u64, GridDensity>,
    bound: Set<u64>,
)
    requires
        frame_of(before, grids, bound).error is None,
        entry.ready,
        !grids.contains_key(entry.asset_id),
    ensures
        frame_of(before + seq![entry] + after, grids, bound) == (FrameModel {
            commands: frame_of(before, grids, bound).commands,
            completed: frame_of(before, grids, bound).completed,
            error: Some(FrameError::MissingAsset { asset_id: entry.asset_id }),
        }),
{
    let queue = before + seq![entry] + after;
    let k = before.len() + 1int;
    assert(queue.take(k).drop_last() =~= before);
    assert(queue.take(k).last() == entry);
    lemma_error_is_final(queue, k, grids, bound);
}

/// A reached ready entry whose asset has a grid but no bind group reports
/// that one error and ends the frame in the same way.
pub proof fn lemma_missing_bind_group_halts(
    before: Seq<Isosurface>,
    entry: Isosurface,
    after: Seq<Isosurface>,
    grids: Map<u64, GridDensity>,
    bound: Set<u64>,
)
    requires
        frame_of(before, grids, bound).error is None,
        entry.ready,
        grids.contains_key(entry.asset_id),
        !bound.contains(entry.asset_id),
    ensures
        frame_of(before + seq![entry] + after, grids, bound) == (FrameModel {
            commands: frame_of(before, grids, bound).commands,
            completed: frame_of(before, grids, bound).completed,
            error: Some(FrameError::MissingBindGroup { asset_id: entry.asset_id }),
        }),
{
    let queue = before + seq![entry] + after;
    let k = before.len() + 1int;
    assert(queue.take(k).drop_last() =~= before);
    assert(queue.take(k).last() == entry);
    lemma_error_is_final(queue, k, grids, bound);
}

/// Planning twice over unchanged inputs gives the same commands,
/// completions and error: the plan depends on the queue, the grids and
/// the bound assets alone, and planning changes none of them.
pub proof fn lemma_planning_is_repeatable<G>(
    first: FramePlan,
    second: FramePlan,
    queue: WorkQueue,
    grids: GridRegistry,
    bindings: BindingTable<G>,
)
    requires
        first@ == frame_of(queue@, grids@, bindings@.dom()),
        second@ == frame_of(queue@, grids@, bindings@.dom()),
    ensures
        first.commands@ == second.commands@,
        first.completed@ == second.completed@,
        first.error == second.error,
{
}

} // verus!
