//! The lattice of sectors that tiles the world.
//!
//! One step of the lattice is one sector edge, `SECTOR_SIZE` voxels.

use vstd::prelude::*;
use crate::coords::SECTOR_SIZE;

verus! {

/// A sector stays resident while the squared distance of its coordinates to
/// those of the observer's sector is below this bound.
pub const EVICTION_DISTANCE_SQ: i64 = 280;

/// The position of a sector in the lattice.
#[derive(Clone, Copy, Debug, PartialEq, Eq, Structural, Hash)]
pub struct SectorCoords {
    pub x: i32,
    pub y: i32,
    pub z: i32,
}

/// The largest integer that is not above `a / SECTOR_SIZE`, held to the
/// range of `i32`.
pub open spec fn sector_of(a: int) -> int {
    let q = a / (SECTOR_SIZE as int);
    if q < i32::MIN {
        i32::MIN as int
    } else if q > i32::MAX {
        i32::MAX as int
    } else {
        q
    }
}

/// The sector that holds the voxel at `(x, y, z)`: each component is divided
/// by the sector edge and rounded down.
pub open spec fn spec_sector_at(x: int, y: int, z: int) -> SectorCoords {
    SectorCoords { x: sector_of(x) as i32, y: sector_of(y) as i32, z: sector_of(z) as i32 }
}

fn sector_along(a: i64) -> (s: i32)
    ensures
        s == sector_of(a as int),
{
    let q: i64 = if a >= 0 {
        a / 32
    } else {
        -1 - (-1 - a) / 32
    };
    if q < -2147483648 {
        -2147483648
    } else if q > 2147483647 {
        2147483647
    } else {
        q as i32
    }
}

/// The sector that holds a position of the world, given in whole voxels.
pub fn sector_at(x: i64, y: i64, z: i64) -> (sector: SectorCoords)
    ensures
        sector == spec_sector_at(x as int, y as int, z as int),
{
    SectorCoords { x: sector_along(x), y: sector_along(y), z: sector_along(z) }
}

impl SectorCoords {
    /// The coordinates with the given components.
    pub fn new(x: i32, y: i32, z: i32) -> (c: SectorCoords)
        ensures
            c == (SectorCoords { x, y, z }),
    {
        SectorCoords { x, y, z }
    }

    /// The sector at the offset `(dx, dy, dz)` from this one, where the
    /// lattice has one.
    pub open spec fn shifted(self, dx: int, dy: int, dz: int) -> Option<SectorCoords> {
        if i32::MIN <= self.x + dx <= i32::MAX && i32::MIN <= self.y + dy <= i32::MAX && i32::MIN
            <= self.z + dz <= i32::MAX {
            Some(
                SectorCoords {
                    x: (self.x + dx) as i32,
                    y: (self.y + dy) as i32,
                    z: (self.z + dz) as i32,
                },
            )
        } else {
            None
        }
    }

    /// The sector behind this one: one step down the z axis.
    pub open spec fn spec_back(self) -> Option<SectorCoords> {
        self.shifted(0, 0, -1)
    }

    /// The sector in front of this one: one step up the z axis.
    pub open spec fn spec_front(self) -> Option<SectorCoords> {
        self.shifted(0, 0, 1)
    }

    /// The sector above this one: one step up the y axis.
    pub open spec fn spec_top(self) -> Option<SectorCoords> {
        self.shifted(0, 1, 0)
    }

    /// The sector below this one: one step down the y axis.
    pub open spec fn spec_bottom(self) -> Option<SectorCoords> {
        self.shifted(0, -1, 0)
    }

    /// The sector to the left of this one: one step down the x axis.
    pub open spec fn spec_left(self) -> Option<SectorCoords> {
        self.shifted(-1, 0, 0)
    }

    /// The sector to the right of this one: one step up the x axis.
    pub open spec fn spec_right(self) -> Option<SectorCoords> {
        self.shifted(1, 0, 0)
    }

    /// The six sectors that share a face with this one, in the order back,
    /// front, top, bottom, left, right. At the rim of the lattice a
    /// neighbour is `None`.
    pub open spec fn neighbours(self) -> Seq<Option<SectorCoords>> {
        seq![
            self.spec_back(),
            self.spec_front(),
            self.spec_top(),
            self.spec_bottom(),
            self.spec_left(),
            self.spec_right(),
        ]
    }

    /// The sector at the given offset, or `None` where that leaves the
    /// lattice.
    pub fn offset(&self, dx: i32, dy: i32, dz: i32) -> (r: Option<SectorCoords>)
        ensures
            r == self.shifted(dx as int, dy as int, dz as int),
    {
        match (self.x.checked_add(dx), self.y.checked_add(dy), self.z.checked_add(dz)) {
            (Some(x), Some(y), Some(z)) => Some(SectorCoords { x, y, z }),
            _ => None,
        }
    }

    /// The sector behind this one: one step down the z axis.
    #[verifier::when_used_as_spec(spec_back)]
    pub fn back(self) -> (r: Option<SectorCoords>)
        ensures
            r == self.spec_back(),
    {
        self.offset(0, 0, -1)
    }

    /// The sector in front of this one: one step up the z axis.
    #[verifier::when_used_as_spec(spec_front)]
    pub fn front(self) -> (r: Option<SectorCoords>)
        ensures
            r == self.spec_front(),
    {
        self.offset(0, 0, 1)
    }

    /// The sector above this one: one step up the y axis.
    #[verifier::when_used_as_spec(spec_top)]
    pub fn top(self) -> (r: Option<SectorCoords>)
        ensures
            r == self.spec_top(),
    {
        self.offset(0, 1, 0)
    }

    /// The sector below this one: one step down the y axis.
    #[verifier::when_used_as_spec(spec_bottom)]
    pub fn bottom(self) -> (r: Option<SectorCoords>)
        ensures
            r == self.spec_bottom(),
    {
        self.offset(0, -1, 0)
    }

    /// The sector to the left of this one: one step down the x axis.
    #[verifier::when_used_as_spec(spec_left)]
    pub fn left(self) -> (r: Option<SectorCoords>)
        ensures
            r == self.spec_left(),
    {
        self.offset(-1, 0, 0)
    }

    /// The sector to the right of this one: one step up the x axis.
    #[verifier::when_used_as_spec(spec_right)]
    pub fn right(self) -> (r: Option<SectorCoords>)
        ensures
            r == self.spec_right(),
    {
        self.offset(1, 0, 0)
    }

    /// The squared Euclidean distance to `other`, in lattice steps.
    pub open spec fn dist_sq(self, other: SectorCoords) -> int {
        (self.x - other.x) * (self.x - other.x) + (self.y - other.y) * (self.y - other.y) + (self.z
            - other.z) * (self.z - other.z)
    }

    /// Whether a sector here stays resident while the observer is in sector
    /// `observer`.
    pub open spec fn within_reach(self, observer: SectorCoords) -> bool {
        self.dist_sq(observer) < EVICTION_DISTANCE_SQ
    }

    /// Whether a sector here stays resident while the observer is in sector
    /// `observer`.
    pub fn is_within_reach(&self, observer: SectorCoords) -> (near: bool)
        ensures
            near == self.within_reach(observer),
    {
        let dx: i64 = self.x as i64 - observer.x as i64;
        let dy: i64 = self.y as i64 - observer.y as i64;
        let dz: i64 = self.z as i64 - observer.z as i64;
        if dx < -16 || dx > 16 || dy < -16 || dy > 16 || dz < -16 || dz > 16 {
            proof {
                lemma_square_grows(dx as int, 17);
                lemma_square_grows(dy as int, 17);
                lemma_square_grows(dz as int, 17);
            }
            return false;
        }
        proof {
            lemma_square_bounded(dx as int, 16);
            lemma_square_bounded(dy as int, 16);
            lemma_square_bounded(dz as int, 16);
        }
        dx * dx + dy * dy + dz * dz < EVICTION_DISTANCE_SQ
    }

    /// The position in the world of the sector's first voxel, in voxels.
    pub open spec fn spec_origin(self) -> (int, int, int) {
        (self.x * SECTOR_SIZE, self.y * SECTOR_SIZE, self.z * SECTOR_SIZE)
    }

    /// The position in the world of the sector's first voxel, in voxels.
    pub fn origin(&self) -> (p: (i64, i64, i64))
        ensures
            (p.0 as int, p.1 as int, p.2 as int) == self.spec_origin(),
    {
        (self.x as i64 * 32, self.y as i64 * 32, self.z as i64 * 32)
    }

    /// The position in the world of the sector's middle, in voxels.
    pub fn center(&self) -> (p: (i64, i64, i64))
        ensures
            p.0 == self.spec_origin().0 + SECTOR_SIZE / 2,
            p.1 == self.spec_origin().1 + SECTOR_SIZE / 2,
            p.2 == self.spec_origin().2 + SECTOR_SIZE / 2,
    {
        (self.x as i64 * 32 + 16, self.y as i64 * 32 + 16, self.z as i64 * 32 + 16)
    }
}

proof fn lemma_square_grows(d: int, bound: int)
    requires
        0 <= bound,
    ensures
        0 <= d * d,
        d >= bound || d <= -bound ==> d * d >= bound * bound,
{
    assert(0 <= d * d) by (nonlinear_arith);
    assert(d >= bound || d <= -bound ==> d * d >= bound * bound) by (nonlinear_arith)
        requires
            0 <= bound,
    ;
}

proof fn lemma_square_bounded(d: int, bound: int)
    requires
        -bound <= d <= bound,
    ensures
        0 <= d * d <= bound * bound,
{
    assert(0 <= d * d <= bound * bound) by (nonlinear_arith)
        requires
            -bound <= d <= bound,
    ;
}

/// A sector holds the voxels whose positions lie between its origin and the
/// origin of the next sector along each axis.
pub proof fn lemma_sector_at_holds(x: int, y: int, z: int)
    requires
        i32::MIN * SECTOR_SIZE <= x < (i32::MAX + 1) * SECTOR_SIZE,
        i32::MIN * SECTOR_SIZE <= y < (i32::MAX + 1) * SECTOR_SIZE,
        i32::MIN * SECTOR_SIZE <= z < (i32::MAX + 1) * SECTOR_SIZE,
    ensures
        ({
            let o = spec_sector_at(x, y, z).spec_origin();
            &&& o.0 <= x < o.0 + SECTOR_SIZE
            &&& o.1 <= y < o.1 + SECTOR_SIZE
            &&& o.2 <= z < o.2 + SECTOR_SIZE
        }),
{
}

} // verus!
