use terrain_compute::dataflow::GridLineage;
use terrain_compute::dispatch::Dispatch;
use terrain_compute::grid::{Generation, Workgroups};

fn dispatch(stage: usize, bind_group: usize) -> Dispatch {
    Dispatch { stage, bind_group, workgroups: Workgroups { x: 1, y: 1, z: 1 } }
}

#[test]
fn seeded_grid_has_no_lineage() {
    let lineage = GridLineage::seeded();
    assert_eq!(lineage.stages(Generation::A), vec![]);
    assert_eq!(lineage.stages(Generation::B), vec![]);
}

#[test]
fn dispatch_against_set_zero_writes_b_from_a() {
    let mut lineage = GridLineage::seeded();
    lineage.apply(&dispatch(5, 0));
    assert_eq!(lineage.stages(Generation::A), vec![]);
    assert_eq!(lineage.stages(Generation::B), vec![5]);
}

#[test]
fn dispatch_against_set_one_writes_a_from_b() {
    let mut lineage = GridLineage::seeded();
    lineage.apply(&dispatch(5, 0));
    lineage.apply(&dispatch(6, 1));
    assert_eq!(lineage.stages(Generation::A), vec![5, 6]);
    assert_eq!(lineage.stages(Generation::B), vec![5]);
}

#[test]
fn dispatch_overwrites_what_the_generation_held() {
    let mut lineage = GridLineage::seeded();
    lineage.apply(&dispatch(1, 0));
    lineage.apply(&dispatch(2, 0));
    assert_eq!(lineage.stages(Generation::A), vec![]);
    assert_eq!(lineage.stages(Generation::B), vec![2]);
}

#[test]
fn replay_applies_the_dispatches_in_order() {
    let plan = vec![dispatch(0, 1), dispatch(1, 0), dispatch(2, 1)];
    let mut replayed = GridLineage::seeded();
    replayed.replay(&plan);
    let mut applied = GridLineage::seeded();
    for d in &plan {
        applied.apply(d);
    }
    assert_eq!(replayed, applied);
    assert_eq!(replayed.stages(Generation::A), vec![0, 1, 2]);
    assert_eq!(replayed.stages(Generation::B), vec![0, 1]);
}

#[test]
fn replay_of_an_empty_plan_changes_nothing() {
    let mut lineage = GridLineage::seeded();
    lineage.apply(&dispatch(3, 1));
    lineage.replay(&Vec::new());
    assert_eq!(lineage.stages(Generation::A), vec![3]);
    assert_eq!(lineage.stages(Generation::B), vec![]);
}

#[test]
fn generation_that_no_dispatch_writes_keeps_its_lineage() {
    let mut lineage = GridLineage::seeded();
    lineage.apply(&dispatch(0, 0));
    let before = lineage.stages(Generation::B);
    lineage.replay(&vec![dispatch(1, 1), dispatch(2, 1), dispatch(3, 1)]);
    assert_eq!(lineage.stages(Generation::B), before);
    assert_eq!(lineage.stages(Generation::A), vec![0, 3]);
}

#[test]
fn skipped_stage_leaves_a_stale_read_for_the_next_stage() {
    let mut lineage = GridLineage::seeded();
    lineage.replay(&vec![dispatch(0, 1), dispatch(2, 1)]);
    assert_eq!(lineage.stages(Generation::A), vec![2]);
    assert_eq!(lineage.stages(Generation::B), vec![]);
}
