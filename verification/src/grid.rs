//! The grid, its two physical generations and the channel groups each one stores.

use vstd::prelude::*;

verus! {

/// One of the two physical copies of the full grid state.
#[derive(Clone, Copy, Debug, PartialEq, Eq, Hash, Structural)]
pub enum Generation {
    A,
    B,
}

impl Generation {
    /// The generation that is not `self`.
    pub open spec fn flip(self) -> Generation {
        match self {
            Generation::A => Generation::B,
            Generation::B => Generation::A,
        }
    }

    /// Returns the other generation.
    pub fn other(self) -> (g: Generation)
        ensures
            g == self.flip(),
            g != self,
    {
        match self {
            Generation::A => Generation::B,
            Generation::B => Generation::A,
        }
    }
}

/// One of the three per-cell quantities kept for every generation.
#[derive(Clone, Copy, Debug, PartialEq, Eq, Hash, Structural)]
pub enum ChannelGroup {
    /// Elevation and water state.
    Terrain,
    /// Directional flow.
    Flow,
    /// Velocity.
    Velocity,
}

impl ChannelGroup {
    /// The channel group at position `position` of a generation: terrain, flow, velocity.
    pub open spec fn at(position: int) -> ChannelGroup {
        if position == 0 {
            ChannelGroup::Terrain
        } else if position == 1 {
            ChannelGroup::Flow
        } else {
            ChannelGroup::Velocity
        }
    }

    /// The position of this channel group within a generation.
    pub open spec fn position(self) -> int {
        match self {
            ChannelGroup::Terrain => 0,
            ChannelGroup::Flow => 1,
            ChannelGroup::Velocity => 2,
        }
    }

    /// Returns the channel group at `position`, if there is one.
    pub fn from_position(position: usize) -> (group: Option<ChannelGroup>)
        ensures
            position < 3 <==> group is Some,
            group matches Some(g) ==> g == ChannelGroup::at(position as int) && g.position()
                == position,
    {
        if position == 0 {
            Some(ChannelGroup::Terrain)
        } else if position == 1 {
            Some(ChannelGroup::Flow)
        } else if position == 2 {
            Some(ChannelGroup::Velocity)
        } else {
            None
        }
    }
}

/// The physical storage of the simulation: one image per channel group and generation,
/// each named by the identifier under which the renderer knows it.
#[derive(Clone, Copy, Debug, PartialEq, Eq, Hash, Structural)]
pub struct ComputeTerrainImages {
    pub terrainmap_a: u64,
    pub flowmap_a: u64,
    pub velocitymap_a: u64,
    pub terrainmap_b: u64,
    pub flowmap_b: u64,
    pub velocitymap_b: u64,
}

impl ComputeTerrainImages {
    /// The image that stores `group` for `generation`.
    pub open spec fn image_of(self, group: ChannelGroup, generation: Generation) -> u64 {
        match (generation, group) {
            (Generation::A, ChannelGroup::Terrain) => self.terrainmap_a,
            (Generation::A, ChannelGroup::Flow) => self.flowmap_a,
            (Generation::A, ChannelGroup::Velocity) => self.velocitymap_a,
            (Generation::B, ChannelGroup::Terrain) => self.terrainmap_b,
            (Generation::B, ChannelGroup::Flow) => self.flowmap_b,
            (Generation::B, ChannelGroup::Velocity) => self.velocitymap_b,
        }
    }

    /// Whether no image of generation A is also an image of generation B.
    pub open spec fn generations_disjoint(self) -> bool {
        forall|g: ChannelGroup, h: ChannelGroup|
            self.image_of(g, Generation::A) != self.image_of(h, Generation::B)
    }

    /// Returns the image that stores `group` for `generation`.
    pub fn image(&self, group: ChannelGroup, generation: Generation) -> (id: u64)
        ensures
            id == self.image_of(group, generation),
    {
        match generation {
            Generation::A => match group {
                ChannelGroup::Terrain => self.terrainmap_a,
                ChannelGroup::Flow => self.flowmap_a,
                ChannelGroup::Velocity => self.velocitymap_a,
            },
            Generation::B => match group {
                ChannelGroup::Terrain => self.terrainmap_b,
                ChannelGroup::Flow => self.flowmap_b,
                ChannelGroup::Velocity => self.velocitymap_b,
            },
        }
    }

    /// Tells whether the two generations share no image.
    pub fn has_disjoint_generations(&self) -> (disjoint: bool)
        ensures
            disjoint == self.generations_disjoint(),
    {
        let disjoint = self.terrainmap_a != self.terrainmap_b && self.terrainmap_a
            != self.flowmap_b && self.terrainmap_a != self.velocitymap_b && self.flowmap_a
            != self.terrainmap_b && self.flowmap_a != self.flowmap_b && self.flowmap_a
            != self.velocitymap_b && self.velocitymap_a != self.terrainmap_b
            && self.velocitymap_a != self.flowmap_b && self.velocitymap_a != self.velocitymap_b;
        proof {
            if disjoint {
                assert forall|g: ChannelGroup, h: ChannelGroup|
                    self.image_of(g, Generation::A) != self.image_of(h, Generation::B) by {}
            } else {
                assert(exists|g: ChannelGroup, h: ChannelGroup|
                    self.image_of(g, Generation::A) == self.image_of(h, Generation::B)) by {
                    let a = *self;
                    assert(a.image_of(ChannelGroup::Terrain, Generation::A) == a.terrainmap_a);
                    assert(a.image_of(ChannelGroup::Flow, Generation::A) == a.flowmap_a);
                    assert(a.image_of(ChannelGroup::Velocity, Generation::A) == a.velocitymap_a);
                    assert(a.image_of(ChannelGroup::Terrain, Generation::B) == a.terrainmap_b);
                    assert(a.image_of(ChannelGroup::Flow, Generation::B) == a.flowmap_b);
                    assert(a.image_of(ChannelGroup::Velocity, Generation::B) == a.velocitymap_b);
                }
            }
        }
        disjoint
    }
}

/// The extent of the grid in cells.
#[derive(Clone, Copy, Debug, PartialEq, Eq, Hash, Structural)]
pub struct Grid {
    pub width: u32,
    pub height: u32,
}

/// The number of workgroups that one dispatch launches along each axis.
#[derive(Clone, Copy, Debug, PartialEq, Eq, Hash, Structural)]
pub struct Workgroups {
    pub x: u32,
    pub y: u32,
    pub z: u32,
}

/// Why a grid cannot be covered by workgroups of a given size.
#[derive(Clone, Copy, Debug, PartialEq, Eq, Hash, Structural)]
pub enum GridError {
    /// The workgroup size is zero.
    ZeroWorkgroupSize,
    /// The width is not a multiple of the workgroup size.
    UnevenWidth,
    /// The width is a multiple of the workgroup size, the height is not.
    UnevenHeight,
}

impl Grid {
    /// Whether workgroups of `workgroup_size` cells along each axis tile the grid exactly.
    pub open spec fn tiled_by(self, workgroup_size: u32) -> bool {
        &&& workgroup_size > 0
        &&& self.width as int % workgroup_size as int == 0
        &&& self.height as int % workgroup_size as int == 0
    }

    /// The workgroups that cover the whole grid, one layer deep.
    pub open spec fn workgroups_for(self, workgroup_size: u32) -> Workgroups {
        Workgroups {
            x: (self.width as int / workgroup_size as int) as u32,
            y: (self.height as int / workgroup_size as int) as u32,
            z: 1,
        }
    }

    /// The workgroups that cover the grid, or why workgroups of that size cannot.
    pub open spec fn tiling(self, workgroup_size: u32) -> Result<Workgroups, GridError> {
        if workgroup_size == 0 {
            Err(GridError::ZeroWorkgroupSize)
        } else if self.width as int % workgroup_size as int != 0 {
            Err(GridError::UnevenWidth)
        } else if self.height as int % workgroup_size as int != 0 {
            Err(GridError::UnevenHeight)
        } else {
            Ok(self.workgroups_for(workgroup_size))
        }
    }

    /// Divides the grid into workgroups of `workgroup_size` cells along each axis.
    /// A size that does not tile the grid exactly is a configuration error.
    pub fn workgroups(&self, workgroup_size: u32) -> (r: Result<Workgroups, GridError>)
        ensures
            r == self.tiling(workgroup_size),
            r is Ok <==> self.tiled_by(workgroup_size),
            r matches Ok(w) ==> w.x * workgroup_size == self.width && w.y * workgroup_size
                == self.height && w.z == 1,
    {
        if workgroup_size == 0 {
            Err(GridError::ZeroWorkgroupSize)
        } else if self.width % workgroup_size != 0 {
            Err(GridError::UnevenWidth)
        } else if self.height % workgroup_size != 0 {
            Err(GridError::UnevenHeight)
        } else {
            let x: u32 = self.width / workgroup_size;
            let y: u32 = self.height / workgroup_size;
            assert(x * workgroup_size == self.width && y * workgroup_size == self.height) by
                (nonlinear_arith)
                requires
                    workgroup_size > 0,
                    x == self.width as int / workgroup_size as int,
                    y == self.height as int / workgroup_size as int,
                    self.width as int % workgroup_size as int == 0,
                    self.height as int % workgroup_size as int == 0,
            ;
            Ok(Workgroups { x, y, z: 1 })
        }
    }
}

} // verus!
