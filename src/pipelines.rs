use crate::model::Stage;
use vstd::prelude::*;

verus! {

/// The executable pipelines of the three stages, all resolved.
///
/// `P` is whatever the host's pipeline cache hands out for a compiled
/// pipeline.
pub struct ComputePipelines<P> {
    pub find_vertices: P,
    pub connect_vertices: P,
    pub prepare_indirect: P,
}

/// The pipeline that runs `stage`.
pub open spec fn pipeline_of<P>(p: ComputePipelines<P>, stage: Stage) -> P {
    match stage {
        Stage::FindVertices => p.find_vertices,
        Stage::ConnectVertices => p.connect_vertices,
        Stage::PrepareIndirect => p.prepare_indirect,
    }
}

impl<P> ComputePipelines<P> {
    /// Gathers the cache's answers for the three stages.
    ///
    /// A stage still compiling is `None`; the set resolves only when none
    /// is, so a frame never runs with a missing stage.
    pub fn resolve(find_vertices: Option<P>, connect_vertices: Option<P>, prepare_indirect: Option<P>) -> (r: Option<ComputePipelines<P>>)
        ensures
            r is Some <==> (find_vertices is Some && connect_vertices is Some && prepare_indirect is Some),
            r matches Some(p) ==> (p.find_vertices == find_vertices->0
                && p.connect_vertices == connect_vertices->0
                && p.prepare_indirect == prepare_indirect->0),
    {
        match (find_vertices, connect_vertices, prepare_indirect) {
            (Some(f), Some(c), Some(p)) => Some(ComputePipelines {
                find_vertices: f,
                connect_vertices: c,
                prepare_indirect: p,
            }),
            _ => None,
        }
    }

    /// The pipeline that runs `stage`.
    pub fn stage(&self, stage: Stage) -> (r: &P)
        ensures
            *r == pipeline_of(*self, stage),
    {
        match stage {
            Stage::FindVertices => &self.find_vertices,
            Stage::ConnectVertices => &self.connect_vertices,
            Stage::PrepareIndirect => &self.prepare_indirect,
        }
    }
}

} // verus!
