//! The kinds of block a voxel can hold.

use vstd::prelude::*;

verus! {

/// A block in the world.
#[derive(Clone, Copy, Debug, PartialEq, Eq, Structural, Hash)]
pub enum Block {
    Air,
    Limestone,
    Loam,
    Grass,
    Tree,
    Leaves,
}

impl Block {
    /// Whether the block is `Air`, the only variant that is not solid.
    pub open spec fn is_air_spec(&self) -> bool {
        *self == Block::Air
    }

    /// Whether the block is solid, and so has faces to draw where exposed.
    pub open spec fn is_solid(&self) -> bool {
        !self.is_air_spec()
    }

    /// Determine if the block is air.
    #[verifier::when_used_as_spec(is_air_spec)]
    pub fn is_air(&self) -> (air: bool)
        ensures
            air == self.is_air_spec(),
    {
        match *self {
            Block::Air => true,
            _ => false,
        }
    }

    /// Determine if the block must be drawn.
    #[verifier::when_used_as_spec(is_solid)]
    pub fn needs_rendering(&self) -> (solid: bool)
        ensures
            solid == self.is_solid(),
    {
        !self.is_air()
    }
}

} // verus!
