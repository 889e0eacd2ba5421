use terrain_compute::grid::{
    ChannelGroup, ComputeTerrainImages, Generation, Grid, GridError, Workgroups,
};

fn images() -> ComputeTerrainImages {
    ComputeTerrainImages {
        terrainmap_a: 10,
        flowmap_a: 11,
        velocitymap_a: 12,
        terrainmap_b: 20,
        flowmap_b: 21,
        velocitymap_b: 22,
    }
}

#[test]
fn generation_other_swaps_a_and_b() {
    assert_eq!(Generation::A.other(), Generation::B);
    assert_eq!(Generation::B.other(), Generation::A);
    assert_eq!(Generation::A.other().other(), Generation::A);
}

#[test]
fn channel_groups_by_position() {
    assert_eq!(ChannelGroup::from_position(0), Some(ChannelGroup::Terrain));
    assert_eq!(ChannelGroup::from_position(1), Some(ChannelGroup::Flow));
    assert_eq!(ChannelGroup::from_position(2), Some(ChannelGroup::Velocity));
    assert_eq!(ChannelGroup::from_position(3), None);
    assert_eq!(ChannelGroup::from_position(usize::MAX), None);
}

#[test]
fn image_of_each_group_and_generation() {
    let images = images();
    assert_eq!(images.image(ChannelGroup::Terrain, Generation::A), 10);
    assert_eq!(images.image(ChannelGroup::Flow, Generation::A), 11);
    assert_eq!(images.image(ChannelGroup::Velocity, Generation::A), 12);
    assert_eq!(images.image(ChannelGroup::Terrain, Generation::B), 20);
    assert_eq!(images.image(ChannelGroup::Flow, Generation::B), 21);
    assert_eq!(images.image(ChannelGroup::Velocity, Generation::B), 22);
}

#[test]
fn disjoint_generations_are_recognised() {
    assert!(images().has_disjoint_generations());
}

#[test]
fn shared_image_between_generations_is_recognised() {
    let mut shared = images();
    shared.velocitymap_b = shared.terrainmap_a;
    assert!(!shared.has_disjoint_generations());
    let mut same_group = images();
    same_group.flowmap_b = same_group.flowmap_a;
    assert!(!same_group.has_disjoint_generations());
}

#[test]
fn images_repeated_within_one_generation_stay_disjoint() {
    let mut images = images();
    images.flowmap_a = images.terrainmap_a;
    assert!(images.has_disjoint_generations());
}

#[test]
fn workgroups_of_size_one_cover_every_cell() {
    let grid = Grid { width: 4096, height: 2048 };
    assert_eq!(grid.workgroups(1), Ok(Workgroups { x: 4096, y: 2048, z: 1 }));
}

#[test]
fn workgroups_divide_both_axes() {
    let grid = Grid { width: 4096, height: 2048 };
    assert_eq!(grid.workgroups(8), Ok(Workgroups { x: 512, y: 256, z: 1 }));
    assert_eq!(grid.workgroups(2048), Ok(Workgroups { x: 2, y: 1, z: 1 }));
}

#[test]
fn workgroups_of_an_empty_grid() {
    let grid = Grid { width: 0, height: 0 };
    assert_eq!(grid.workgroups(16), Ok(Workgroups { x: 0, y: 0, z: 1 }));
}

#[test]
fn workgroups_at_the_largest_extent() {
    let grid = Grid { width: u32::MAX, height: u32::MAX };
    assert_eq!(grid.workgroups(1), Ok(Workgroups { x: u32::MAX, y: u32::MAX, z: 1 }));
    assert_eq!(grid.workgroups(u32::MAX), Ok(Workgroups { x: 1, y: 1, z: 1 }));
}

#[test]
fn zero_workgroup_size_is_an_error() {
    let grid = Grid { width: 4, height: 2 };
    assert_eq!(grid.workgroups(0), Err(GridError::ZeroWorkgroupSize));
}

#[test]
fn uneven_width_is_an_error() {
    let grid = Grid { width: 5, height: 4 };
    assert_eq!(grid.workgroups(2), Err(GridError::UnevenWidth));
}

#[test]
fn uneven_height_is_an_error() {
    let grid = Grid { width: 4, height: 5 };
    assert_eq!(grid.workgroups(2), Err(GridError::UnevenHeight));
}

#[test]
fn uneven_width_is_reported_before_uneven_height() {
    let grid = Grid { width: 5, height: 5 };
    assert_eq!(grid.workgroups(2), Err(GridError::UnevenWidth));
}
