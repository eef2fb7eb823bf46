//! What the generation worker asks about in one cycle.
//!
//! Each cycle the worker scans a box of sectors around the observer's sector
//! and sends one query for each, nearer columns first. The box is wider than
//! what is rendered, so that a sector in render range finds its neighbours
//! generated when it is meshed.

use vstd::prelude::*;
use crate::lattice::{sector_at, spec_sector_at, SectorCoords};
use crate::message::Query;

verus! {

/// The farthest a rendered sector lies from the observer's sector along the
/// x and z axes.
pub const RENDER_DIST_AXIS: i32 = 2;

/// The farthest a rendered sector lies from the observer's sector along the
/// y axis.
pub const RENDER_DIST_HEIGHT: i32 = 1;

/// The farthest a scanned sector lies from the observer's sector along the
/// x and z axes.
pub const SCAN_DIST_AXIS: i32 = 3;

/// The farthest a scanned sector lies from the observer's sector along the
/// y axis.
pub const SCAN_DIST_HEIGHT: i32 = 2;

/// The number of queries of one scan.
pub const SCAN_LEN: usize = 245;

/// The order in which the offsets along the x and the z axis are visited:
/// the middle first, then outwards.
pub open spec fn generate_order() -> Seq<int> {
    seq![0, -1, 1, -2, 2, 3, -3]
}

/// The order in which the offsets along the y axis are visited: the middle
/// first, then outwards.
pub open spec fn height_order() -> Seq<int> {
    seq![0, -1, 1, -2, 2]
}

/// The offset of the `i`-th query of a scan from the observer's sector. The
/// z offset changes fastest and the x offset slowest; both follow
/// `generate_order`, and the y offset follows `height_order`. So a scan
/// starts at its centre.
pub open spec fn scan_offset(i: int) -> (int, int, int) {
    (generate_order()[i / 35], height_order()[(i / 7) % 5], generate_order()[i % 7])
}

/// Whether a sector at the given offset from the observer's sector is to be
/// rendered.
pub open spec fn should_render(dx: int, dy: int, dz: int) -> bool {
    &&& -RENDER_DIST_AXIS <= dx <= RENDER_DIST_AXIS
    &&& -RENDER_DIST_HEIGHT <= dy <= RENDER_DIST_HEIGHT
    &&& -RENDER_DIST_AXIS <= dz <= RENDER_DIST_AXIS
}

/// Whether a sector at the given offset from the observer's sector is
/// scanned.
pub open spec fn in_scan(dx: int, dy: int, dz: int) -> bool {
    &&& -SCAN_DIST_AXIS <= dx <= SCAN_DIST_AXIS
    &&& -SCAN_DIST_HEIGHT <= dy <= SCAN_DIST_HEIGHT
    &&& -SCAN_DIST_AXIS <= dz <= SCAN_DIST_AXIS
}

/// Whether the whole scan around `center` lies inside the lattice.
pub open spec fn scannable(center: SectorCoords) -> bool {
    &&& i32::MIN + SCAN_DIST_AXIS <= center.x <= i32::MAX - SCAN_DIST_AXIS
    &&& i32::MIN + SCAN_DIST_HEIGHT <= center.y <= i32::MAX - SCAN_DIST_HEIGHT
    &&& i32::MIN + SCAN_DIST_AXIS <= center.z <= i32::MAX - SCAN_DIST_AXIS
}

/// The `i`-th query of the scan around `center`.
pub open spec fn scan_query(center: SectorCoords, i: int) -> Query {
    let (dx, dy, dz) = scan_offset(i);
    Query {
        sector: SectorCoords {
            x: (center.x + dx) as i32,
            y: (center.y + dy) as i32,
            z: (center.z + dz) as i32,
        },
        should_render: should_render(dx, dy, dz),
    }
}

/// Whether the whole scan around `center` lies inside the lattice.
pub fn can_scan(center: SectorCoords) -> (ok: bool)
    ensures
        ok == scannable(center),
{
    center.x >= i32::MIN + SCAN_DIST_AXIS && center.x <= i32::MAX - SCAN_DIST_AXIS && center.y
        >= i32::MIN + SCAN_DIST_HEIGHT && center.y <= i32::MAX - SCAN_DIST_HEIGHT && center.z
        >= i32::MIN + SCAN_DIST_AXIS && center.z <= i32::MAX - SCAN_DIST_AXIS
}

/// Whether a sector at the given offset from the observer's sector is to be
/// rendered.
pub fn renders(dx: i32, dy: i32, dz: i32) -> (near: bool)
    ensures
        near == should_render(dx as int, dy as int, dz as int),
{
    -RENDER_DIST_AXIS <= dx && dx <= RENDER_DIST_AXIS && -RENDER_DIST_HEIGHT <= dy && dy
        <= RENDER_DIST_HEIGHT && -RENDER_DIST_AXIS <= dz && dz <= RENDER_DIST_AXIS
}

fn order_at(i: usize) -> (d: i32)
    requires
        i < 7,
    ensures
        d == generate_order()[i as int],
{
    let order: [i32; 7] = [0, -1, 1, -2, 2, 3, -3];
    order[i]
}

fn height_at(i: usize) -> (d: i32)
    requires
        i < 5,
    ensures
        d == height_order()[i as int],
{
    let order: [i32; 5] = [0, -1, 1, -2, 2];
    order[i]
}

/// The `i`-th query of the scan around `center`.
pub fn query_at(center: SectorCoords, i: usize) -> (query: Query)
    requires
        scannable(center),
        i < SCAN_LEN,
    ensures
        query == scan_query(center, i as int),
{
    let dx = order_at(i / 35);
    let dy = height_at((i / 7) % 5);
    let dz = order_at(i % 7);
    Query {
        sector: SectorCoords { x: center.x + dx, y: center.y + dy, z: center.z + dz },
        should_render: renders(dx, dy, dz),
    }
}

/// The queries of one scan around `center`, in the order in which the
/// worker sends them.
pub fn scan(center: SectorCoords) -> (queries: Vec<Query>)
    requires
        scannable(center),
    ensures
        queries@.len() == SCAN_LEN,
        forall|i: int| 0 <= i < SCAN_LEN ==> queries@[i] == scan_query(center, i),
{
    let mut queries: Vec<Query> = Vec::with_capacity(SCAN_LEN);
    let mut i: usize = 0;
    while i < SCAN_LEN
        invariant
            i <= SCAN_LEN,
            scannable(center),
            queries@.len() == i,
            forall|j: int| 0 <= j < i ==> queries@[j] == scan_query(center, j),
        decreases SCAN_LEN - i,
    {
        queries.push(query_at(center, i));
        i += 1;
    }
    queries
}

/// The sector around which the worker scans when the observer stands at
/// the voxel `(x, y, z)`: the sector that holds the voxel, or at the rim of
/// the lattice the nearest sector around which a scan fits.
pub open spec fn spec_scan_center(x: int, y: int, z: int) -> SectorCoords {
    let held = spec_sector_at(x, y, z);
    SectorCoords {
        x: within(held.x as int, SCAN_DIST_AXIS as int) as i32,
        y: within(held.y as int, SCAN_DIST_HEIGHT as int) as i32,
        z: within(held.z as int, SCAN_DIST_AXIS as int) as i32,
    }
}

/// The component `a` of a sector's coordinates, moved by as little as it
/// takes to leave `margin` steps to either rim of the lattice.
pub open spec fn within(a: int, margin: int) -> int {
    if a < i32::MIN + margin {
        i32::MIN + margin
    } else if a > i32::MAX - margin {
        i32::MAX - margin
    } else {
        a
    }
}

fn keep_within(a: i32, margin: i32) -> (kept: i32)
    requires
        0 <= margin <= SCAN_DIST_AXIS,
    ensures
        kept == within(a as int, margin as int),
{
    if a < i32::MIN + margin {
        i32::MIN + margin
    } else if a > i32::MAX - margin {
        i32::MAX - margin
    } else {
        a
    }
}

/// The sector around which the worker scans when the observer stands at
/// the voxel `(x, y, z)`.
pub fn scan_center(x: i64, y: i64, z: i64) -> (center: SectorCoords)
    ensures
        center == spec_scan_center(x as int, y as int, z as int),
        scannable(center),
        scannable(spec_sector_at(x as int, y as int, z as int)) ==> center == spec_sector_at(
            x as int,
            y as int,
            z as int,
        ),
{
    let held = sector_at(x, y, z);
    SectorCoords {
        x: keep_within(held.x, SCAN_DIST_AXIS),
        y: keep_within(held.y, SCAN_DIST_HEIGHT),
        z: keep_within(held.z, SCAN_DIST_AXIS),
    }
}

/// The place of an offset along the x or the z axis in `generate_order`,
/// and of an offset along the y axis in `height_order`.
pub open spec fn order_rank(d: int) -> int {
    if d == 0 {
        0
    } else if d == -1 {
        1
    } else if d == 1 {
        2
    } else if d == -2 {
        3
    } else if d == 2 {
        4
    } else if d == 3 {
        5
    } else {
        6
    }
}

/// The place in a scan of the query for the sector at the given offset.
pub open spec fn scan_index(dx: int, dy: int, dz: int) -> int {
    order_rank(dx) * 35 + order_rank(dy) * 7 + order_rank(dz)
}

/// Every query of a scan is about a sector of the scanned box.
pub proof fn lemma_scan_stays_in_box(i: int)
    requires
        0 <= i < SCAN_LEN,
    ensures
        in_scan(scan_offset(i).0, scan_offset(i).1, scan_offset(i).2),
{
}

/// A scan asks about every sector of the scanned box: the sector at offset
/// `(dx, dy, dz)` is the subject of query `scan_index(dx, dy, dz)`.
pub proof fn lemma_scan_covers_box(dx: int, dy: int, dz: int)
    requires
        in_scan(dx, dy, dz),
    ensures
        0 <= scan_index(dx, dy, dz) < SCAN_LEN,
        scan_offset(scan_index(dx, dy, dz)) == (dx, dy, dz),
{
}

/// A scan asks about no sector twice.
pub proof fn lemma_scan_asks_once(i: int, j: int)
    requires
        0 <= i < SCAN_LEN,
        0 <= j < SCAN_LEN,
        scan_offset(i) == scan_offset(j),
    ensures
        i == j,
{
    let (dx, dy, dz) = scan_offset(i);
    assert(scan_index(dx, dy, dz) == i);
    assert(scan_index(dx, dy, dz) == j);
}

/// A scan starts at its centre: the first query is about the observer's
/// own sector, which is to be rendered.
pub proof fn lemma_scan_starts_at_its_centre(center: SectorCoords)
    ensures
        scan_offset(0) == (0int, 0int, 0int),
        scan_index(0, 0, 0) == 0,
        scan_query(center, 0) == (Query { sector: center, should_render: true }),
{
}

/// The sectors in the observer's own column of x come first in a scan, and
/// within every column of x those of the observer's own height come first.
/// So the observer's sector comes before every other.
pub proof fn lemma_scan_starts_in_the_middle(i: int)
    requires
        0 <= i < SCAN_LEN,
    ensures
        scan_offset(i).0 == 0 <==> i < 35,
        scan_offset(i).1 == 0 <==> i % 35 < 7,
        scan_offset(i) == (0int, 0int, 0int) <==> i == 0,
{
}

/// Where the scan around `center` fits into the lattice, it asks about
/// the sector at each offset of the box with the flag of that offset, and
/// about no sector twice.
pub proof fn lemma_scan_asks_about_each_sector_once(
    center: SectorCoords,
    dx: int,
    dy: int,
    dz: int,
    i: int,
)
    requires
        scannable(center),
        in_scan(dx, dy, dz),
        0 <= i < SCAN_LEN,
    ensures
        0 <= scan_index(dx, dy, dz) < SCAN_LEN,
        scan_query(center, scan_index(dx, dy, dz)) == (Query {
            sector: SectorCoords {
                x: (center.x + dx) as i32,
                y: (center.y + dy) as i32,
                z: (center.z + dz) as i32,
            },
            should_render: should_render(dx, dy, dz),
        }),
        center.x + dx == scan_query(center, scan_index(dx, dy, dz)).sector.x,
        center.y + dy == scan_query(center, scan_index(dx, dy, dz)).sector.y,
        center.z + dz == scan_query(center, scan_index(dx, dy, dz)).sector.z,
        scan_query(center, i).sector == scan_query(center, scan_index(dx, dy, dz)).sector <==> i
            == scan_index(dx, dy, dz),
{
    lemma_scan_covers_box(dx, dy, dz);
    lemma_scan_stays_in_box(i);
    if scan_query(center, i).sector == scan_query(center, scan_index(dx, dy, dz)).sector {
        lemma_scan_asks_once(i, scan_index(dx, dy, dz));
    }
}

/// The six neighbours of a sector that is to be rendered are all scanned.
pub proof fn lemma_rendered_sector_has_scanned_neighbours(dx: int, dy: int, dz: int)
    requires
        should_render(dx, dy, dz),
    ensures
        in_scan(dx, dy, dz - 1),
        in_scan(dx, dy, dz + 1),
        in_scan(dx, dy + 1, dz),
        in_scan(dx, dy - 1, dz),
        in_scan(dx - 1, dy, dz),
        in_scan(dx + 1, dy, dz),
{
}

} // verus!
