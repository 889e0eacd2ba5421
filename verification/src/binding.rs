//! The two binding sets of a session: which generation a dispatch reads and which it writes.

use crate::grid::{ChannelGroup, ComputeTerrainImages, Generation};
use vstd::prelude::*;

verus! {

/// What a kernel may do with a bound image.
#[derive(Clone, Copy, Debug, PartialEq, Eq, Hash, Structural)]
pub enum Access {
    ReadOnly,
    WriteOnly,
}

/// One image bound to one slot of the kernels' binding layout.
#[derive(Clone, Copy, Debug, PartialEq, Eq, Hash, Structural)]
pub struct Binding {
    /// The slot of the layout.
    pub slot: u32,
    pub access: Access,
    pub group: ChannelGroup,
    pub generation: Generation,
    /// The image that stores `group` for `generation`.
    pub image: u64,
}

/// The number of slots in the binding layout that all kernels share.
pub const LAYOUT_SLOTS: usize = 6;

/// The access of slot `slot` of the layout: three read-only slots, then three write-only ones.
pub open spec fn layout_access(slot: int) -> Access {
    if slot < 3 {
        Access::ReadOnly
    } else {
        Access::WriteOnly
    }
}

/// The generation that binding set `index` binds read-only: A for set 0, B for set 1.
pub open spec fn read_generation(index: int) -> Generation {
    if index == 0 {
        Generation::A
    } else {
        Generation::B
    }
}

/// The generation that binding set `index` binds write-only: the one it does not read.
pub open spec fn write_generation(index: int) -> Generation {
    read_generation(index).flip()
}

/// What binding set `index` binds to slot `slot`. The channel groups of the generation read
/// fill the read-only slots in order, those of the generation written the write-only slots.
pub open spec fn binding_at(index: int, slot: int, images: ComputeTerrainImages) -> Binding {
    let access = layout_access(slot);
    let group = ChannelGroup::at(slot % 3);
    let generation = match access {
        Access::ReadOnly => read_generation(index),
        Access::WriteOnly => write_generation(index),
    };
    Binding {
        slot: slot as u32,
        access,
        group,
        generation,
        image: images.image_of(group, generation),
    }
}

/// Everything binding set `index` binds, slot by slot.
pub open spec fn binding_set(index: int, images: ComputeTerrainImages) -> Seq<Binding> {
    Seq::new(LAYOUT_SLOTS as nat, |slot: int| binding_at(index, slot, images))
}

/// Returns the access of each slot of the binding layout.
pub fn binding_layout() -> (layout: Vec<Access>)
    ensures
        layout@ == Seq::new(LAYOUT_SLOTS as nat, |slot: int| layout_access(slot)),
{
    let mut layout: Vec<Access> = Vec::new();
    let mut slot: usize = 0;
    while slot < LAYOUT_SLOTS
        invariant
            slot <= LAYOUT_SLOTS,
            layout@ == Seq::new(slot as nat, |s: int| layout_access(s)),
        decreases LAYOUT_SLOTS - slot,
    {
        layout.push(
            if slot < 3 {
                Access::ReadOnly
            } else {
                Access::WriteOnly
            },
        );
        slot += 1;
    }
    layout
}

/// Returns the generation that binding set `index` reads.
pub fn generation_read(index: usize) -> (generation: Generation)
    ensures
        generation == read_generation(index as int),
{
    if index == 0 {
        Generation::A
    } else {
        Generation::B
    }
}

/// Returns the generation that binding set `index` writes.
pub fn generation_written(index: usize) -> (generation: Generation)
    ensures
        generation == write_generation(index as int),
        generation != read_generation(index as int),
{
    generation_read(index).other()
}

/// One of the two binding sets of a session.
#[derive(Clone, Copy, Debug, PartialEq, Eq)]
pub struct BindingSet {
    index: usize,
    images: ComputeTerrainImages,
}

impl View for BindingSet {
    type V = Seq<Binding>;

    closed spec fn view(&self) -> Seq<Binding> {
        binding_set(self.index as int, self.images)
    }
}

impl BindingSet {
    #[verifier::type_invariant]
    pub closed spec fn well_formed(&self) -> bool {
        self.index < 2
    }

    /// The position of this set in its pair.
    pub closed spec fn position(&self) -> int {
        self.index as int
    }

    /// The images of the session this set belongs to.
    pub closed spec fn bound_images(&self) -> ComputeTerrainImages {
        self.images
    }

    /// Returns the position of this set in its pair.
    pub fn index(&self) -> (index: usize)
        ensures
            index == self.position(),
            index < 2,
            self@ == binding_set(index as int, self.bound_images()),
    {
        proof {
            use_type_invariant(self);
        }
        self.index
    }

    /// Returns the generation whose images this set binds read-only.
    pub fn read_generation(&self) -> (generation: Generation)
        ensures
            generation == read_generation(self.position()),
    {
        proof {
            use_type_invariant(self);
        }
        generation_read(self.index)
    }

    /// Returns the generation whose images this set binds write-only.
    pub fn write_generation(&self) -> (generation: Generation)
        ensures
            generation == write_generation(self.position()),
            generation != read_generation(self.position()),
    {
        proof {
            use_type_invariant(self);
        }
        generation_written(self.index)
    }

    /// Returns what this set binds, slot by slot.
    pub fn entries(&self) -> (entries: Vec<Binding>)
        ensures
            entries@ == self@,
            entries@ == binding_set(self.position(), self.bound_images()),
    {
        proof {
            use_type_invariant(self);
        }
        let read = generation_read(self.index);
        let write = read.other();
        let mut entries: Vec<Binding> = Vec::new();
        let mut slot: usize = 0;
        while slot < LAYOUT_SLOTS
            invariant
                slot <= LAYOUT_SLOTS,
                read == read_generation(self.index as int),
                write == write_generation(self.index as int),
                entries@ == Seq::new(
                    slot as nat,
                    |s: int| binding_at(self.index as int, s, self.images),
                ),
            decreases LAYOUT_SLOTS - slot,
        {
            let (access, generation) = if slot < 3 {
                (Access::ReadOnly, read)
            } else {
                (Access::WriteOnly, write)
            };
            let group = match ChannelGroup::from_position(slot % 3) {
                Some(group) => group,
                None => ChannelGroup::Terrain,
            };
            let image = self.images.image(group, generation);
            entries.push(Binding { slot: slot as u32, access, group, generation, image });
            slot += 1;
        }
        entries
    }
}

/// The two binding sets of a session. Set 0 reads generation A and writes generation B; set 1
/// reads B and writes A.
#[derive(Clone, Copy, Debug, PartialEq, Eq)]
pub struct BindingSetPair {
    images: ComputeTerrainImages,
}

impl BindingSetPair {
    /// The images that the two sets bind.
    pub closed spec fn images(&self) -> ComputeTerrainImages {
        self.images
    }

    /// Builds the pair over the images of a session.
    pub fn build(images: &ComputeTerrainImages) -> (pair: BindingSetPair)
        ensures
            pair.images() == *images,
    {
        BindingSetPair { images: *images }
    }

    /// Returns the binding set at `index`, if there is one: there are two.
    pub fn get(&self, index: usize) -> (set: Option<BindingSet>)
        ensures
            set is Some <==> index < 2,
            set matches Some(s) ==> s.position() == index && s.bound_images() == self.images()
                && s@ == binding_set(index as int, self.images()),
    {
        if index < 2 {
            Some(BindingSet { index, images: self.images })
        } else {
            None
        }
    }
}

/// No binding set binds one generation both for reading and for writing: whatever it binds
/// read-only belongs to one generation, whatever it binds write-only to the other. Where the
/// two generations share no image, no image is bound both ways either.
pub proof fn lemma_no_self_aliasing(index: int, images: ComputeTerrainImages, r: int, w: int)
    requires
        0 <= index < 2,
        0 <= r < LAYOUT_SLOTS,
        0 <= w < LAYOUT_SLOTS,
        binding_set(index, images)[r].access == Access::ReadOnly,
        binding_set(index, images)[w].access == Access::WriteOnly,
    ensures
        binding_set(index, images)[r].generation == read_generation(index),
        binding_set(index, images)[w].generation == write_generation(index),
        binding_set(index, images)[r].generation != binding_set(index, images)[w].generation,
        images.generations_disjoint() ==> binding_set(index, images)[r].image != binding_set(
            index,
            images,
        )[w].image,
{
}

/// The two sets of a pair are mirror images: each reads the generation the other writes.
pub proof fn lemma_sets_mirror(index: int)
    requires
        0 <= index < 2,
    ensures
        read_generation(1 - index) == write_generation(index),
        write_generation(1 - index) == read_generation(index),
{
}

} // verus!
