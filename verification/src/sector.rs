//! A sector: the voxels of one cell of the lattice and, once it has been
//! meshed, the model that draws them.

use vstd::prelude::*;
use crate::grid::{has_solid, BlockList};

verus! {

/// An individual "chunk" of the world.
///
/// `M` is the model: a handle to renderable geometry that the library only
/// stores. A sector starts without one and gets one at most once. A sector of
/// air alone never gets one.
pub struct Sector<M> {
    blocks: BlockList,
    model: Option<M>,
}

impl<M> Sector<M> {
    /// The voxels of the sector.
    pub closed spec fn spec_blocks(&self) -> BlockList {
        self.blocks
    }

    /// The model of the sector, if it has been meshed.
    pub closed spec fn spec_model(&self) -> Option<M> {
        self.model
    }

    /// Only a sector with a solid block has a model.
    pub open spec fn wf(&self) -> bool {
        self.spec_model() is Some ==> has_solid(self.spec_blocks()@)
    }

    #[verifier::type_invariant]
    closed spec fn inv(&self) -> bool {
        self.wf()
    }

    /// Whether a model can be attached: the sector has a solid block and no
    /// model yet.
    pub open spec fn wants_model(&self) -> bool {
        has_solid(self.spec_blocks()@) && self.spec_model() is None
    }

    /// The sector as it is generated: `blocks`, not meshed.
    pub closed spec fn fresh(blocks: BlockList) -> Sector<M> {
        Sector { blocks, model: None }
    }

    /// The sector with the same voxels and with `model`.
    pub closed spec fn with_model(self, model: M) -> Sector<M> {
        Sector { blocks: self.blocks, model: Some(model) }
    }

    /// What `fresh` holds.
    pub proof fn lemma_fresh(blocks: BlockList)
        ensures
            Self::fresh(blocks).spec_blocks() == blocks,
            Self::fresh(blocks).spec_model() is None,
            Self::fresh(blocks).wf(),
    {
    }

    /// What `with_model` holds.
    pub proof fn lemma_with_model(self, model: M)
        ensures
            self.with_model(model).spec_blocks() == self.spec_blocks(),
            self.with_model(model).spec_model() == Some(model),
            has_solid(self.spec_blocks()@) ==> self.with_model(model).wf(),
    {
    }

    /// Create a sector.
    pub fn new(blocks: BlockList) -> (sector: Sector<M>)
        ensures
            sector == Self::fresh(blocks),
            sector.spec_blocks() == blocks,
            sector.spec_model() is None,
    {
        Sector { blocks, model: None }
    }

    /// Return an immutable reference to this sector's model.
    /// The model may not exist, in which case `None` is returned.
    pub fn model(&self) -> (model: Option<&M>)
        ensures
            model is Some <==> self.spec_model() is Some,
            model matches Some(m) ==> self.spec_model() == Some(*m),
    {
        self.model.as_ref()
    }

    /// Return this sector's `BlockList`.
    pub fn blocks(&self) -> (blocks: &BlockList)
        ensures
            *blocks == self.spec_blocks(),
    {
        &self.blocks
    }

    /// Whether the sector is still to be meshed: it has a solid block and no
    /// model.
    pub fn needs_model(&self) -> (wanted: bool)
        ensures
            wanted == self.wants_model(),
    {
        self.model.is_none() && self.blocks.needs_rendering()
    }

    /// Attach `model`, once. Where the sector holds air alone or has a model
    /// already, nothing changes and `model` is handed back.
    pub fn set_model(&mut self, model: M) -> (refused: Result<(), M>)
        ensures
            old(self).wants_model() ==> refused is Ok && *final(self) == old(self).with_model(model),
            !old(self).wants_model() ==> refused == Err::<(), M>(model) && *final(self) == *old(
                self,
            ),
    {
        if self.needs_model() {
            self.model = Some(model);
            Ok(())
        } else {
            Err(model)
        }
    }
}

/// The six sectors around one sector, lent for the time it takes to mesh it.
pub struct AdjacentSectors<'a, M> {
    back: &'a Sector<M>,
    front: &'a Sector<M>,
    top: &'a Sector<M>,
    bottom: &'a Sector<M>,
    left: &'a Sector<M>,
    right: &'a Sector<M>,
}

impl<'a, M> AdjacentSectors<'a, M> {
    /// The sector one step down the z axis.
    pub closed spec fn spec_back(&self) -> Sector<M> {
        *self.back
    }

    /// The sector one step up the z axis.
    pub closed spec fn spec_front(&self) -> Sector<M> {
        *self.front
    }

    /// The sector one step up the y axis.
    pub closed spec fn spec_top(&self) -> Sector<M> {
        *self.top
    }

    /// The sector one step down the y axis.
    pub closed spec fn spec_bottom(&self) -> Sector<M> {
        *self.bottom
    }

    /// The sector one step down the x axis.
    pub closed spec fn spec_left(&self) -> Sector<M> {
        *self.left
    }

    /// The sector one step up the x axis.
    pub closed spec fn spec_right(&self) -> Sector<M> {
        *self.right
    }

    /// Gather the six neighbours of a sector.
    pub fn new(
        back: &'a Sector<M>,
        front: &'a Sector<M>,
        top: &'a Sector<M>,
        bottom: &'a Sector<M>,
        left: &'a Sector<M>,
        right: &'a Sector<M>,
    ) -> (adjacent: AdjacentSectors<'a, M>)
        ensures
            adjacent.spec_back() == *back,
            adjacent.spec_front() == *front,
            adjacent.spec_top() == *top,
            adjacent.spec_bottom() == *bottom,
            adjacent.spec_left() == *left,
            adjacent.spec_right() == *right,
    {
        AdjacentSectors { back, front, top, bottom, left, right }
    }

    /// The sector one step down the z axis.
    pub fn back(&self) -> (sector: &'a Sector<M>)
        ensures
            *sector == self.spec_back(),
    {
        self.back
    }

    /// The sector one step up the z axis.
    pub fn front(&self) -> (sector: &'a Sector<M>)
        ensures
            *sector == self.spec_front(),
    {
        self.front
    }

    /// The sector one step up the y axis.
    pub fn top(&self) -> (sector: &'a Sector<M>)
        ensures
            *sector == self.spec_top(),
    {
        self.top
    }

    /// The sector one step down the y axis.
    pub fn bottom(&self) -> (sector: &'a Sector<M>)
        ensures
            *sector == self.spec_bottom(),
    {
        self.bottom
    }

    /// The sector one step down the x axis.
    pub fn left(&self) -> (sector: &'a Sector<M>)
        ensures
            *sector == self.spec_left(),
    {
        self.left
    }

    /// The sector one step up the x axis.
    pub fn right(&self) -> (sector: &'a Sector<M>)
        ensures
            *sector == self.spec_right(),
    {
        self.right
    }
}

} // verus!
