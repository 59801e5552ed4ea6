use crate::model::Isosurface;
use vstd::prelude::*;

verus! {

/// The isosurfaces to extract this frame, in the order they were requested.
pub struct WorkQueue {
    entries: Vec<Isosurface>,
}

impl View for WorkQueue {
    type V = Seq<Isosurface>;

    closed spec fn view(&self) -> Seq<Isosurface> {
        self.entries@
    }
}

impl WorkQueue {
    /// An empty queue.
    pub fn new() -> (r: WorkQueue)
        ensures
            r@ == Seq::<Isosurface>::empty(),
    {
        WorkQueue { entries: Vec::new() }
    }

    /// Requests extraction for `asset_id`; the new entry is not ready yet.
    pub fn request(&mut self, asset_id: u64)
        ensures
            final(self)@ == old(self)@.push(Isosurface { asset_id, ready: false }),
    {
        self.entries.push(Isosurface { asset_id, ready: false });
    }

    /// Marks every entry for `asset_id` ready, once its bindings exist.
    pub fn mark_ready(&mut self, asset_id: u64)
        ensures
            final(self)@.len() == old(self)@.len(),
            forall|i: int|
                0 <= i < old(self)@.len() ==> #[trigger] final(self)@[i] == (if old(self)@[i].asset_id
                    == asset_id {
                    Isosurface { asset_id, ready: true }
                } else {
                    old(self)@[i]
                }),
    {
        let n = self.entries.len();
        let mut i: usize = 0;
        while i < n
            invariant
                0 <= i <= n,
                n == old(self)@.len(),
                self@.len() == n,
                forall|j: int|
                    0 <= j < i ==> #[trigger] self@[j] == (if old(self)@[j].asset_id == asset_id {
                        Isosurface { asset_id, ready: true }
                    } else {
                        old(self)@[j]
                    }),
                forall|j: int| i <= j < n ==> #[trigger] self@[j] == old(self)@[j],
            decreases n - i,
        {
            if self.entries[i].asset_id == asset_id {
                self.entries.set(i, Isosurface { asset_id, ready: true });
            }
            i += 1;
        }
    }

    /// Drops every entry for `asset_id`, as when its extraction is no
    /// longer requested; the others keep their order.
    pub fn remove(&mut self, asset_id: u64)
        ensures
            final(self)@ == old(self)@.filter(|e: Isosurface| e.asset_id != asset_id),
    {
        let ghost start = self@;
        let mut kept: Vec<Isosurface> = Vec::new();
        let n = self.entries.len();
        let mut i: usize = 0;
        while i < n
            invariant
                0 <= i <= n,
                n == start.len(),
                self@ == start,
                kept@ == start.take(i as int).filter(|e: Isosurface| e.asset_id != asset_id),
            decreases n - i,
        {
            let e = self.entries[i];
            proof {
                reveal(Seq::filter);
                assert(start.take(i + 1).drop_last() =~= start.take(i as int));
            }
            if e.asset_id != asset_id {
                kept.push(e);
            }
            i += 1;
        }
        assert(start.take(n as int) =~= start);
        self.entries = kept;
    }

    /// Number of entries.
    pub fn len(&self) -> (r: usize)
        ensures
            r == self@.len(),
    {
        self.entries.len()
    }

    /// The entry at `index`.
    pub fn get(&self, index: usize) -> (r: Isosurface)
        requires
            index < self@.len(),
        ensures
            r == self@[index as int],
    {
        self.entries[index]
    }
}

} // verus!
