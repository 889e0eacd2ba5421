use terrain_compute::kernel::{
    erosion_entry_points, CompileFailure, CompileStatus, KernelRegistry, PipelineShape,
};

fn names(list: &[&str]) -> Vec<String> {
    let mut names = Vec::new();
    for name in list {
        names.push(name.to_string());
    }
    names
}

#[test]
fn two_stage_registry_starts_pending() {
    let registry = KernelRegistry::two_stage("init".to_string(), "update".to_string());
    assert_eq!(registry.shape(), PipelineShape::TwoStage);
    assert_eq!(registry.stage_count(), 2);
    assert_eq!(registry.entry_point(0), Some("init".to_string()));
    assert_eq!(registry.entry_point(1), Some("update".to_string()));
    assert_eq!(registry.compile_status(0), Some(CompileStatus::Pending));
    assert_eq!(registry.compile_status(1), Some(CompileStatus::Pending));
}

#[test]
fn multi_stage_registry_keeps_the_order_of_its_stages() {
    let registry = KernelRegistry::multi_stage(names(&["a", "b", "c"])).unwrap();
    assert_eq!(registry.shape(), PipelineShape::MultiStage);
    assert_eq!(registry.stage_count(), 3);
    assert_eq!(registry.entry_point(0), Some("a".to_string()));
    assert_eq!(registry.entry_point(1), Some("b".to_string()));
    assert_eq!(registry.entry_point(2), Some("c".to_string()));
    for stage in 0..3 {
        assert_eq!(registry.compile_status(stage), Some(CompileStatus::Pending));
    }
}

#[test]
fn multi_stage_registry_of_one_stage() {
    let registry = KernelRegistry::multi_stage(names(&["only"])).unwrap();
    assert_eq!(registry.stage_count(), 1);
    assert_eq!(registry.shape(), PipelineShape::MultiStage);
}

#[test]
fn there_is_no_registry_without_a_stage() {
    assert!(KernelRegistry::multi_stage(Vec::new()).is_none());
}

#[test]
fn unknown_stage_has_no_entry_point_and_no_status() {
    let registry = KernelRegistry::two_stage("init".to_string(), "update".to_string());
    assert_eq!(registry.entry_point(2), None);
    assert_eq!(registry.compile_status(2), None);
    assert!(!registry.is_ready(2));
    assert_eq!(registry.failure_of(2), None);
}

#[test]
fn report_records_the_status_of_a_pending_stage() {
    let mut registry = KernelRegistry::two_stage("init".to_string(), "update".to_string());
    assert!(registry.report(1, CompileStatus::Ready));
    assert_eq!(registry.compile_status(0), Some(CompileStatus::Pending));
    assert_eq!(registry.compile_status(1), Some(CompileStatus::Ready));
    assert!(registry.is_ready(1));
    assert!(!registry.is_ready(0));
    assert_eq!(registry.entry_point(1), Some("update".to_string()));
}

#[test]
fn report_of_pending_keeps_a_stage_pending() {
    let mut registry = KernelRegistry::two_stage("init".to_string(), "update".to_string());
    assert!(registry.report(0, CompileStatus::Pending));
    assert_eq!(registry.compile_status(0), Some(CompileStatus::Pending));
    assert!(registry.report(0, CompileStatus::Ready));
    assert_eq!(registry.compile_status(0), Some(CompileStatus::Ready));
}

#[test]
fn compiled_kernel_stays_compiled() {
    let mut registry = KernelRegistry::two_stage("init".to_string(), "update".to_string());
    assert!(registry.report(0, CompileStatus::Ready));
    assert!(!registry.report(0, CompileStatus::Pending));
    assert!(!registry.report(0, CompileStatus::Failed("late".to_string())));
    assert_eq!(registry.compile_status(0), Some(CompileStatus::Ready));
}

#[test]
fn failed_kernel_stays_failed() {
    let mut registry = KernelRegistry::two_stage("init".to_string(), "update".to_string());
    assert!(registry.report(1, CompileStatus::Failed("syntax error".to_string())));
    assert!(!registry.report(1, CompileStatus::Ready));
    assert_eq!(
        registry.compile_status(1),
        Some(CompileStatus::Failed("syntax error".to_string()))
    );
}

#[test]
fn report_for_an_unknown_stage_changes_nothing() {
    let mut registry = KernelRegistry::two_stage("init".to_string(), "update".to_string());
    assert!(!registry.report(2, CompileStatus::Ready));
    assert_eq!(registry.stage_count(), 2);
    assert_eq!(registry.compile_status(0), Some(CompileStatus::Pending));
    assert_eq!(registry.compile_status(1), Some(CompileStatus::Pending));
}

#[test]
fn failure_names_stage_entry_point_and_message() {
    let mut registry = KernelRegistry::multi_stage(names(&["a", "b", "c"])).unwrap();
    registry.report(2, CompileStatus::Failed("unknown identifier".to_string()));
    assert_eq!(
        registry.failure_of(2),
        Some(CompileFailure {
            stage: 2,
            entry_point: "c".to_string(),
            detail: "unknown identifier".to_string(),
        })
    );
    assert_eq!(registry.failure_of(0), None);
    registry.report(1, CompileStatus::Ready);
    assert_eq!(registry.failure_of(1), None);
}

#[test]
fn clone_of_a_status_equals_the_status() {
    let failed = CompileStatus::Failed("message".to_string());
    assert_eq!(failed.clone(), failed);
    assert_eq!(CompileStatus::Pending.clone(), CompileStatus::Pending);
    assert_eq!(CompileStatus::Ready.clone(), CompileStatus::Ready);
}

#[test]
fn erosion_has_seven_stages_in_order() {
    let entry_points = erosion_entry_points();
    assert_eq!(
        entry_points,
        names(&[
            "_1_precipitation",
            "_2_1_outflow_flux",
            "_2_2_water_height",
            "_2_3_velocity_field",
            "_3_erosion_deposition",
            "_4_sediment_transport",
            "_5_evaporation",
        ])
    );
    let registry = KernelRegistry::multi_stage(entry_points).unwrap();
    assert_eq!(registry.stage_count(), 7);
    assert_eq!(registry.entry_point(6), Some("_5_evaporation".to_string()));
}
