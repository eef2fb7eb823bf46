//! What travels between the generation worker and the cache.
//!
//! The worker sends queries and generated sectors. The consumer answers a
//! query about a missing sector with a need: the coordinates of that sector.

use vstd::prelude::*;
use crate::grid::BlockList;
use crate::lattice::SectorCoords;

verus! {

/// A question of the worker to the cache: is this sector resident, and is it
/// near enough to be rendered?
#[derive(Clone, Copy, Debug, PartialEq, Eq, Structural)]
pub struct Query {
    pub sector: SectorCoords,
    pub should_render: bool,
}

/// What the worker sends to the cache.
pub enum Nearby {
    /// The worker asks about a sector around the observer.
    Query(Query),
    /// The worker has generated the voxels of a sector.
    Generated(SectorCoords, BlockList),
}

} // verus!
