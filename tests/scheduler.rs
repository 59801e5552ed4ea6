use isosurface_compute::{
    BindingTable, ComputePipelines, FrameError, FramePlan, GridDensity, GridRegistry,
    IsosurfaceComputeNode, PassCommand, Stage, WorkQueue,
};

const A: u64 = 10;
const B: u64 = 20;
const C: u64 = 30;

fn density(x: u32, y: u32, z: u32) -> GridDensity {
    GridDensity { x, y, z }
}

fn block(asset_id: u64, d: GridDensity) -> Vec<PassCommand> {
    vec![
        PassCommand::SetBindGroup { slot: 0, asset_id },
        PassCommand::Dispatch { stage: Stage::FindVertices, x: d.x, y: d.y, z: d.z },
        PassCommand::Dispatch { stage: Stage::ConnectVertices, x: d.x, y: d.y, z: d.z },
        PassCommand::Dispatch { stage: Stage::PrepareIndirect, x: 1, y: 1, z: 1 },
    ]
}

fn queue_of(entries: &[(u64, bool)]) -> WorkQueue {
    let mut q = WorkQueue::new();
    for &(id, _) in entries {
        q.request(id);
    }
    for &(id, ready) in entries {
        if ready {
            q.mark_ready(id);
        }
    }
    q
}

fn plan(
    queue: &WorkQueue,
    grids: &GridRegistry,
    bindings: &BindingTable<&'static str>,
) -> FramePlan {
    let (_, plan) = IsosurfaceComputeNode
        .run(Some(1u8), Some(2u8), Some(3u8), queue, grids, bindings)
        .expect("all pipelines are resolved");
    plan
}

fn full_stores() -> (GridRegistry, BindingTable<&'static str>) {
    let mut grids = GridRegistry::new();
    grids.insert(A, density(8, 8, 8));
    grids.insert(B, density(2, 3, 5));
    grids.insert(C, density(4, 4, 4));
    let mut bindings = BindingTable::new();
    bindings.insert(A, "a");
    bindings.insert(B, "b");
    bindings.insert(C, "c");
    (grids, bindings)
}

#[test]
fn example_not_ready_entry_is_skipped() {
    let queue = queue_of(&[(A, true), (B, false), (C, true)]);
    let (grids, bindings) = full_stores();
    let p = plan(&queue, &grids, &bindings);
    let expected = vec![
        PassCommand::SetBindGroup { slot: 0, asset_id: A },
        PassCommand::Dispatch { stage: Stage::FindVertices, x: 8, y: 8, z: 8 },
        PassCommand::Dispatch { stage: Stage::ConnectVertices, x: 8, y: 8, z: 8 },
        PassCommand::Dispatch { stage: Stage::PrepareIndirect, x: 1, y: 1, z: 1 },
        PassCommand::SetBindGroup { slot: 0, asset_id: C },
        PassCommand::Dispatch { stage: Stage::FindVertices, x: 4, y: 4, z: 4 },
        PassCommand::Dispatch { stage: Stage::ConnectVertices, x: 4, y: 4, z: 4 },
        PassCommand::Dispatch { stage: Stage::PrepareIndirect, x: 1, y: 1, z: 1 },
    ];
    assert_eq!(p.commands, expected);
    assert_eq!(p.completed, vec![A, C]);
    assert_eq!(p.error, None);
}

#[test]
fn example_missing_asset_first_halts_frame() {
    let queue = queue_of(&[(B, true), (A, true), (C, true)]);
    let (mut grids, bindings) = full_stores();
    grids.remove(B);
    let p = plan(&queue, &grids, &bindings);
    assert!(p.commands.is_empty());
    assert!(p.completed.is_empty());
    assert_eq!(p.error, Some(FrameError::MissingAsset { asset_id: B }));
}

#[test]
fn ready_isosurface_dispatches_three_stages() {
    let queue = queue_of(&[(B, true)]);
    let (grids, bindings) = full_stores();
    let p = plan(&queue, &grids, &bindings);
    assert_eq!(p.commands, block(B, density(2, 3, 5)));
    let dispatches: Vec<Stage> = p
        .commands
        .iter()
        .filter_map(|c| match c {
            PassCommand::Dispatch { stage, .. } => Some(*stage),
            _ => None,
        })
        .collect();
    assert_eq!(
        dispatches,
        vec![Stage::FindVertices, Stage::ConnectVertices, Stage::PrepareIndirect]
    );
}

#[test]
fn not_ready_entries_record_nothing() {
    let queue = queue_of(&[(A, false), (B, false), (C, false)]);
    let (grids, bindings) = full_stores();
    let p = plan(&queue, &grids, &bindings);
    assert!(p.commands.is_empty());
    assert!(p.completed.is_empty());
    assert_eq!(p.error, None);
}

#[test]
fn not_ready_entry_with_missing_asset_is_no_error() {
    let queue = queue_of(&[(A, false), (C, true)]);
    let (mut grids, mut bindings) = full_stores();
    grids.remove(A);
    bindings.remove(A);
    let p = plan(&queue, &grids, &bindings);
    assert_eq!(p.commands, block(C, density(4, 4, 4)));
    assert_eq!(p.error, None);
}

#[test]
fn empty_queue_records_nothing() {
    let queue = WorkQueue::new();
    let (grids, bindings) = full_stores();
    let p = plan(&queue, &grids, &bindings);
    assert!(p.commands.is_empty());
    assert!(p.completed.is_empty());
    assert_eq!(p.error, None);
}

#[test]
fn unresolved_pipeline_skips_whole_frame() {
    let queue = queue_of(&[(A, true), (C, true)]);
    let (grids, bindings) = full_stores();
    let node = IsosurfaceComputeNode;
    assert!(node.run(None, Some(2u8), Some(3u8), &queue, &grids, &bindings).is_none());
    assert!(node.run(Some(1u8), None, Some(3u8), &queue, &grids, &bindings).is_none());
    assert!(node.run(Some(1u8), Some(2u8), None, &queue, &grids, &bindings).is_none());
    assert!(node.run::<u8, &str>(None, None, None, &queue, &grids, &bindings).is_none());
}

#[test]
fn resolved_pipelines_map_to_stages() {
    let p = ComputePipelines::resolve(Some("find"), Some("connect"), Some("prepare")).unwrap();
    assert_eq!(*p.stage(Stage::FindVertices), "find");
    assert_eq!(*p.stage(Stage::ConnectVertices), "connect");
    assert_eq!(*p.stage(Stage::PrepareIndirect), "prepare");
    assert!(ComputePipelines::resolve(Some(1), None, Some(3)).is_none());
}

#[test]
fn missing_asset_keeps_earlier_dispatches() {
    let queue = queue_of(&[(A, true), (B, true), (C, true)]);
    let (mut grids, bindings) = full_stores();
    grids.remove(B);
    let p = plan(&queue, &grids, &bindings);
    assert_eq!(p.commands, block(A, density(8, 8, 8)));
    assert_eq!(p.completed, vec![A]);
    assert_eq!(p.error, Some(FrameError::MissingAsset { asset_id: B }));
}

#[test]
fn missing_bind_group_halts_frame() {
    let queue = queue_of(&[(A, true), (B, true), (C, true)]);
    let (grids, mut bindings) = full_stores();
    bindings.remove(B);
    let p = plan(&queue, &grids, &bindings);
    assert_eq!(p.commands, block(A, density(8, 8, 8)));
    assert_eq!(p.completed, vec![A]);
    assert_eq!(p.error, Some(FrameError::MissingBindGroup { asset_id: B }));
}

#[test]
fn missing_asset_is_reported_before_missing_bind_group() {
    let queue = queue_of(&[(C, true)]);
    let (mut grids, mut bindings) = full_stores();
    grids.remove(C);
    bindings.remove(C);
    let p = plan(&queue, &grids, &bindings);
    assert_eq!(p.error, Some(FrameError::MissingAsset { asset_id: C }));
}

#[test]
fn planning_twice_gives_same_plan() {
    let queue = queue_of(&[(A, true), (B, false), (C, true)]);
    let (grids, bindings) = full_stores();
    let first = plan(&queue, &grids, &bindings);
    let second = plan(&queue, &grids, &bindings);
    assert_eq!(first.commands, second.commands);
    assert_eq!(first.completed, second.completed);
    assert_eq!(first.error, second.error);
}

#[test]
fn largest_density_is_passed_through() {
    let queue = queue_of(&[(A, true)]);
    let mut grids = GridRegistry::new();
    grids.insert(A, density(u32::MAX, 1, u32::MAX));
    let mut bindings = BindingTable::new();
    bindings.insert(A, "a");
    let p = plan(&queue, &grids, &bindings);
    assert_eq!(p.commands, block(A, density(u32::MAX, 1, u32::MAX)));
}

#[test]
fn error_messages_and_ids() {
    let missing_asset = FrameError::MissingAsset { asset_id: A };
    let missing_group = FrameError::MissingBindGroup { asset_id: C };
    assert_eq!(missing_asset.message(), "missing isosurface asset");
    assert_eq!(missing_group.message(), "missing isosurface compute bind group");
    assert_eq!(missing_asset.asset_id(), A);
    assert_eq!(missing_group.asset_id(), C);
}

#[test]
fn work_queue_marks_matching_entries_ready() {
    let mut q = WorkQueue::new();
    q.request(A);
    q.request(B);
    q.request(A);
    q.mark_ready(A);
    assert_eq!(q.len(), 3);
    assert!(q.get(0).ready);
    assert!(!q.get(1).ready);
    assert!(q.get(2).ready);
    assert_eq!(q.get(1).asset_id, B);
}

#[test]
fn stores_insert_replace_and_remove() {
    let mut grids = GridRegistry::new();
    assert_eq!(grids.get(A), None);
    grids.insert(A, density(1, 2, 3));
    grids.insert(A, density(4, 5, 6));
    assert_eq!(grids.get(A), Some(density(4, 5, 6)));
    grids.remove(A);
    assert_eq!(grids.get(A), None);

    let mut bindings: BindingTable<String> = BindingTable::new();
    assert!(!bindings.contains(B));
    bindings.insert(B, "first".to_string());
    bindings.insert(B, "second".to_string());
    assert_eq!(bindings.get(B).map(|s| s.as_str()), Some("second"));
    bindings.remove(B);
    assert!(bindings.get(B).is_none());
}

#[test]
fn work_queue_remove_drops_only_that_asset() {
    let mut q = WorkQueue::new();
    q.request(A);
    q.request(B);
    q.request(A);
    q.request(C);
    q.mark_ready(C);
    q.remove(A);
    assert_eq!(q.len(), 2);
    assert_eq!(q.get(0).asset_id, B);
    assert!(!q.get(0).ready);
    assert_eq!(q.get(1).asset_id, C);
    assert!(q.get(1).ready);
    q.remove(A);
    assert_eq!(q.len(), 2);
}
