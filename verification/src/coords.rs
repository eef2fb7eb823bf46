//! Positions of voxels inside one sector.

use vstd::prelude::*;

verus! {

/// The length of one side of a cubic sector.
pub const SECTOR_SIZE: usize = 32;

/// The length of one side of a cubic sector, as a signed number.
pub const SECTOR_SIZE_S: isize = 32;

/// The number of voxels in a sector.
pub const SECTOR_LEN: usize = 32768;

/// Whether `(x, y, z)` names a voxel of a sector: each component lies in
/// `[0, SECTOR_SIZE)`.
pub open spec fn in_sector(x: int, y: int, z: int) -> bool {
    &&& 0 <= x < SECTOR_SIZE
    &&& 0 <= y < SECTOR_SIZE
    &&& 0 <= z < SECTOR_SIZE
}

/// The type of sector space coordinates.
///
/// A value always names a voxel of the sector. Stepping over a face of the
/// sector is not resolved here: the six neighbour functions answer `None`
/// there, and the caller consults the adjacent sector.
#[derive(Clone, Copy, Debug, PartialEq, Eq, Structural, Hash)]
pub struct SectorSpaceCoords {
    x: isize,
    y: isize,
    z: isize,
}

impl SectorSpaceCoords {
    /// The x component.
    pub closed spec fn spec_x(&self) -> isize {
        self.x
    }

    /// The y component.
    pub closed spec fn spec_y(&self) -> isize {
        self.y
    }

    /// The z component.
    pub closed spec fn spec_z(&self) -> isize {
        self.z
    }

    /// The components lie inside the sector. Every value that executable
    /// code can hold satisfies this.
    pub open spec fn wf(&self) -> bool {
        in_sector(self.x() as int, self.y() as int, self.z() as int)
    }

    #[verifier::type_invariant]
    closed spec fn inv(&self) -> bool {
        self.wf()
    }

    /// The coordinates with the given components, where `(x, y, z)` names a
    /// voxel of the sector.
    pub closed spec fn at(x: int, y: int, z: int) -> SectorSpaceCoords {
        SectorSpaceCoords { x: x as isize, y: y as isize, z: z as isize }
    }

    /// Every voxel of the sector has its coordinates.
    pub proof fn lemma_at(x: int, y: int, z: int)
        requires
            in_sector(x, y, z),
        ensures
            Self::at(x, y, z).x() == x,
            Self::at(x, y, z).y() == y,
            Self::at(x, y, z).z() == z,
            Self::at(x, y, z).wf(),
    {
    }

    /// Coordinates are determined by their three components.
    pub proof fn lemma_components_determine(a: SectorSpaceCoords, b: SectorSpaceCoords)
        requires
            a.x() == b.x(),
            a.y() == b.y(),
            a.z() == b.z(),
        ensures
            a == b,
    {
    }

    /// Create a new coordinate triple.
    ///
    /// Components outside the sector are a caller's error, ruled out here.
    /// `try_new` accepts any triple.
    pub fn new(x: isize, y: isize, z: isize) -> (c: SectorSpaceCoords)
        requires
            in_sector(x as int, y as int, z as int),
        ensures
            c.x() == x,
            c.y() == y,
            c.z() == z,
            c.wf(),
    {
        SectorSpaceCoords { x, y, z }
    }

    /// Create a coordinate triple if every component lies in
    /// `[0, SECTOR_SIZE)`, and reject the triple otherwise.
    pub fn try_new(x: isize, y: isize, z: isize) -> (r: Option<SectorSpaceCoords>)
        ensures
            r is Some <==> in_sector(x as int, y as int, z as int),
            r matches Some(c) ==> c.x() == x && c.y() == y && c.z() == z && c.wf(),
    {
        if x < 0 || y < 0 || z < 0 || x >= SECTOR_SIZE_S || y >= SECTOR_SIZE_S || z
            >= SECTOR_SIZE_S {
            None
        } else {
            Some(SectorSpaceCoords { x, y, z })
        }
    }

    /// If possible, create the coord for the block
    /// behind this one.
    pub fn back(&self) -> (r: Option<SectorSpaceCoords>)
        ensures
            r is None <==> self.z() == 0,
            r matches Some(c) ==> c.x() == self.x() && c.y() == self.y() && c.z() == self.z() - 1
                && c.wf(),
    {
        proof {
            use_type_invariant(self);
        }
        if self.z > 0 {
            Some(Self::new(self.x, self.y, self.z - 1))
        } else {
            None
        }
    }

    /// If possible, create the coord for the block
    /// in front of this one.
    pub fn front(&self) -> (r: Option<SectorSpaceCoords>)
        ensures
            r is None <==> self.z() == SECTOR_SIZE - 1,
            r matches Some(c) ==> c.x() == self.x() && c.y() == self.y() && c.z() == self.z() + 1
                && c.wf(),
    {
        proof {
            use_type_invariant(self);
        }
        if self.z < SECTOR_SIZE_S - 1 {
            Some(Self::new(self.x, self.y, self.z + 1))
        } else {
            None
        }
    }

    /// If possible, create the coord for the block
    /// above this one.
    pub fn top(&self) -> (r: Option<SectorSpaceCoords>)
        ensures
            r is None <==> self.y() == SECTOR_SIZE - 1,
            r matches Some(c) ==> c.x() == self.x() && c.y() == self.y() + 1 && c.z() == self.z()
                && c.wf(),
    {
        proof {
            use_type_invariant(self);
        }
        if self.y < SECTOR_SIZE_S - 1 {
            Some(Self::new(self.x, self.y + 1, self.z))
        } else {
            None
        }
    }

    /// If possible, create the coord for the block
    /// below this one.
    pub fn bottom(&self) -> (r: Option<SectorSpaceCoords>)
        ensures
            r is None <==> self.y() == 0,
            r matches Some(c) ==> c.x() == self.x() && c.y() == self.y() - 1 && c.z() == self.z()
                && c.wf(),
    {
        proof {
            use_type_invariant(self);
        }
        if self.y > 0 {
            Some(Self::new(self.x, self.y - 1, self.z))
        } else {
            None
        }
    }

    /// If possible, create the coord for the block
    /// to the left of this one.
    pub fn left(&self) -> (r: Option<SectorSpaceCoords>)
        ensures
            r is None <==> self.x() == 0,
            r matches Some(c) ==> c.x() == self.x() - 1 && c.y() == self.y() && c.z() == self.z()
                && c.wf(),
    {
        proof {
            use_type_invariant(self);
        }
        if self.x > 0 {
            Some(Self::new(self.x - 1, self.y, self.z))
        } else {
            None
        }
    }

    /// If possible, create the coord for the block
    /// to the right of this one.
    pub fn right(&self) -> (r: Option<SectorSpaceCoords>)
        ensures
            r is None <==> self.x() == SECTOR_SIZE - 1,
            r matches Some(c) ==> c.x() == self.x() + 1 && c.y() == self.y() && c.z() == self.z()
                && c.wf(),
    {
        proof {
            use_type_invariant(self);
        }
        if self.x < SECTOR_SIZE_S - 1 {
            Some(Self::new(self.x + 1, self.y, self.z))
        } else {
            None
        }
    }

    /// The x component.
    #[verifier::when_used_as_spec(spec_x)]
    pub fn x(&self) -> (x: isize)
        ensures
            x == self.x(),
            0 <= x < SECTOR_SIZE,
    {
        proof {
            use_type_invariant(self);
        }
        self.x
    }

    /// The y component.
    #[verifier::when_used_as_spec(spec_y)]
    pub fn y(&self) -> (y: isize)
        ensures
            y == self.y(),
            0 <= y < SECTOR_SIZE,
    {
        proof {
            use_type_invariant(self);
        }
        self.y
    }

    /// The z component.
    #[verifier::when_used_as_spec(spec_z)]
    pub fn z(&self) -> (z: isize)
        ensures
            z == self.z(),
            0 <= z < SECTOR_SIZE,
    {
        proof {
            use_type_invariant(self);
        }
        self.z
    }
}

} // verus!
