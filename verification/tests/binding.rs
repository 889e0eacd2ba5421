use terrain_compute::binding::{
    binding_layout, generation_read, generation_written, Access, Binding, BindingSetPair,
    LAYOUT_SLOTS,
};
use terrain_compute::grid::{ChannelGroup, ComputeTerrainImages, Generation};

fn images() -> ComputeTerrainImages {
    ComputeTerrainImages {
        terrainmap_a: 10,
        flowmap_a: 11,
        velocitymap_a: 12,
        terrainmap_b: 20,
        flowmap_b: 21,
        velocitymap_b: 22,
    }
}

fn binding(
    slot: u32,
    access: Access,
    group: ChannelGroup,
    generation: Generation,
    image: u64,
) -> Binding {
    Binding { slot, access, group, generation, image }
}

#[test]
fn layout_has_three_read_only_then_three_write_only_slots() {
    assert_eq!(LAYOUT_SLOTS, 6);
    assert_eq!(
        binding_layout(),
        vec![
            Access::ReadOnly,
            Access::ReadOnly,
            Access::ReadOnly,
            Access::WriteOnly,
            Access::WriteOnly,
            Access::WriteOnly,
        ]
    );
}

#[test]
fn set_zero_reads_a_and_writes_b() {
    assert_eq!(generation_read(0), Generation::A);
    assert_eq!(generation_written(0), Generation::B);
}

#[test]
fn set_one_reads_b_and_writes_a() {
    assert_eq!(generation_read(1), Generation::B);
    assert_eq!(generation_written(1), Generation::A);
}

#[test]
fn pair_has_exactly_two_sets() {
    let pair = BindingSetPair::build(&images());
    assert!(pair.get(0).is_some());
    assert!(pair.get(1).is_some());
    assert!(pair.get(2).is_none());
    assert_eq!(pair.get(0).unwrap().index(), 0);
    assert_eq!(pair.get(1).unwrap().index(), 1);
}

#[test]
fn entries_of_set_zero() {
    let set = BindingSetPair::build(&images()).get(0).unwrap();
    assert_eq!(set.read_generation(), Generation::A);
    assert_eq!(set.write_generation(), Generation::B);
    assert_eq!(
        set.entries(),
        vec![
            binding(0, Access::ReadOnly, ChannelGroup::Terrain, Generation::A, 10),
            binding(1, Access::ReadOnly, ChannelGroup::Flow, Generation::A, 11),
            binding(2, Access::ReadOnly, ChannelGroup::Velocity, Generation::A, 12),
            binding(3, Access::WriteOnly, ChannelGroup::Terrain, Generation::B, 20),
            binding(4, Access::WriteOnly, ChannelGroup::Flow, Generation::B, 21),
            binding(5, Access::WriteOnly, ChannelGroup::Velocity, Generation::B, 22),
        ]
    );
}

#[test]
fn entries_of_set_one() {
    let set = BindingSetPair::build(&images()).get(1).unwrap();
    assert_eq!(set.read_generation(), Generation::B);
    assert_eq!(set.write_generation(), Generation::A);
    assert_eq!(
        set.entries(),
        vec![
            binding(0, Access::ReadOnly, ChannelGroup::Terrain, Generation::B, 20),
            binding(1, Access::ReadOnly, ChannelGroup::Flow, Generation::B, 21),
            binding(2, Access::ReadOnly, ChannelGroup::Velocity, Generation::B, 22),
            binding(3, Access::WriteOnly, ChannelGroup::Terrain, Generation::A, 10),
            binding(4, Access::WriteOnly, ChannelGroup::Flow, Generation::A, 11),
            binding(5, Access::WriteOnly, ChannelGroup::Velocity, Generation::A, 12),
        ]
    );
}

#[test]
fn entries_follow_the_layout() {
    let layout = binding_layout();
    let pair = BindingSetPair::build(&images());
    for index in 0..2 {
        let entries = pair.get(index).unwrap().entries();
        assert_eq!(entries.len(), layout.len());
        for slot in 0..layout.len() {
            assert_eq!(entries[slot].access, layout[slot]);
            assert_eq!(entries[slot].slot as usize, slot);
        }
    }
}

#[test]
fn no_set_binds_a_generation_both_ways() {
    let pair = BindingSetPair::build(&images());
    for index in 0..2 {
        let set = pair.get(index).unwrap();
        assert_ne!(set.read_generation(), set.write_generation());
        let entries = set.entries();
        for read in entries.iter().filter(|e| e.access == Access::ReadOnly) {
            assert_eq!(read.generation, set.read_generation());
            for write in entries.iter().filter(|e| e.access == Access::WriteOnly) {
                assert_eq!(write.generation, set.write_generation());
                assert_ne!(read.generation, write.generation);
                assert_ne!(read.image, write.image);
            }
        }
    }
}

#[test]
fn the_two_sets_mirror_each_other() {
    let pair = BindingSetPair::build(&images());
    let zero = pair.get(0).unwrap();
    let one = pair.get(1).unwrap();
    assert_eq!(zero.read_generation(), one.write_generation());
    assert_eq!(zero.write_generation(), one.read_generation());
}
