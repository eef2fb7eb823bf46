//! The voxels of one sector.

use vstd::prelude::*;
use vstd::array::*;
use crate::block::Block;
use crate::coords::{SectorSpaceCoords, SECTOR_LEN, SECTOR_SIZE};

verus! {

/// The place of voxel `(x, y, z)` in the flattened layout of a sector:
/// `x` varies fastest, then `y`, then `z`.
pub open spec fn linear_index(x: int, y: int, z: int) -> int {
    x + y * SECTOR_SIZE + z * SECTOR_SIZE * SECTOR_SIZE
}

/// The voxel that the flattened layout keeps at place `i`.
pub open spec fn coords_at(i: int) -> SectorSpaceCoords {
    SectorSpaceCoords::at(
        i % (SECTOR_SIZE as int),
        (i / (SECTOR_SIZE as int)) % (SECTOR_SIZE as int),
        i / (SECTOR_SIZE * SECTOR_SIZE),
    )
}

/// Whether some block of `blocks` is solid.
pub open spec fn has_solid(blocks: Seq<Block>) -> bool {
    exists|i: int| 0 <= i < blocks.len() && #[trigger] blocks[i].is_solid()
}

/// The array structure of blocks in a `Sector`.
pub struct BlockList([Block; SECTOR_LEN]);

impl View for BlockList {
    type V = Seq<Block>;

    /// The blocks in the order of the flattened layout.
    closed spec fn view(&self) -> Seq<Block> {
        self.0@
    }
}

impl BlockList {
    /// The internal index of sector coords.
    pub open spec fn spec_index(pos: SectorSpaceCoords) -> int {
        linear_index(pos.x() as int, pos.y() as int, pos.z() as int)
    }

    /// The block at a position.
    pub open spec fn block_at(&self, pos: SectorSpaceCoords) -> Block {
        self@[Self::spec_index(pos)]
    }

    /// A list holds one block for each voxel of the sector.
    pub proof fn lemma_len(&self)
        ensures
            self@.len() == SECTOR_LEN,
    {
        broadcast use group_array_axioms;

    }

    /// Create a new `BlockList`, consuming the array
    /// of `Block`s.
    pub fn new(blocks: [Block; SECTOR_LEN]) -> (list: BlockList)
        ensures
            list@ == blocks@,
    {
        BlockList(blocks)
    }

    /// Create a new `BlockList` fulled with air.
    pub fn new_air() -> (list: BlockList)
        ensures
            list@ == Seq::new(SECTOR_LEN as nat, |i: int| Block::Air),
            !has_solid(list@),
    {
        broadcast use group_array_axioms;

        let blocks: [Block; SECTOR_LEN] = array_fill_for_copy_types(Block::Air);
        let list = BlockList(blocks);
        assert(list@ =~= Seq::new(SECTOR_LEN as nat, |i: int| Block::Air));
        list
    }

    /// Look at the block at a specific position in sector coords.
    pub fn get(&self, pos: SectorSpaceCoords) -> (block: &Block)
        ensures
            *block == self.block_at(pos),
    {
        broadcast use group_array_axioms;

        let i = Self::index(pos);
        &self.0[i]
    }

    /// Set a block at a specific position in sector coords.
    pub fn set(&mut self, pos: SectorSpaceCoords, block: Block)
        ensures
            final(self)@ == old(self)@.update(Self::spec_index(pos), block),
    {
        broadcast use group_array_axioms;

        let i = Self::index(pos);
        self.0[i] = block;
    }

    /// Determine if any block in the `BlockList` is not air.
    pub fn needs_rendering(&self) -> (solid: bool)
        ensures
            solid == has_solid(self@),
    {
        broadcast use group_array_axioms;

        let mut i: usize = 0;
        while i < SECTOR_LEN
            invariant
                i <= SECTOR_LEN,
                self@.len() == SECTOR_LEN,
                forall|j: int| 0 <= j < i ==> !(#[trigger] self@[j]).is_solid(),
            decreases SECTOR_LEN - i,
        {
            if self.0[i].needs_rendering() {
                return true;
            }
            i += 1;
        }
        false
    }

    /// Determines the internal index of sector coords.
    pub fn index(pos: SectorSpaceCoords) -> (i: usize)
        ensures
            i == Self::spec_index(pos),
            i < SECTOR_LEN,
    {
        let (x, y, z) = (pos.x() as usize, pos.y() as usize, pos.z() as usize);
        x + y * SECTOR_SIZE + z * SECTOR_SIZE * SECTOR_SIZE
    }
}

/// An iterator over a BlockList.
///
/// It yields each voxel of the sector once, with its block, in the order of
/// the flattened layout: `x` rises first, then `y`, then `z`. Once it has
/// answered `None` it keeps doing so.
pub struct BlockListIter<'a> {
    list: &'a BlockList,
    cursor: usize,
}

impl<'a> BlockListIter<'a> {
    /// The number of voxels yielded so far.
    pub closed spec fn position(&self) -> nat {
        self.cursor as nat
    }

    /// The list that is walked.
    pub closed spec fn list(&self) -> BlockList {
        *self.list
    }

    #[verifier::type_invariant]
    closed spec fn inv(&self) -> bool {
        self.cursor <= SECTOR_LEN
    }

    /// Yield the next voxel and its block, or `None` after the last one.
    pub fn next(&mut self) -> (item: Option<(SectorSpaceCoords, &'a Block)>)
        ensures
            item is Some <==> old(self).position() < SECTOR_LEN,
            item matches Some((pos, block)) ==> {
                &&& pos == coords_at(old(self).position() as int)
                &&& pos.wf()
                &&& BlockList::spec_index(pos) == old(self).position()
                &&& *block == old(self).list()@[old(self).position() as int]
                &&& final(self).position() == old(self).position() + 1
            },
            item is None ==> final(self).position() == old(self).position(),
            final(self).list() == old(self).list(),
            final(self).position() <= SECTOR_LEN,
    {
        broadcast use group_array_axioms;

        proof {
            use_type_invariant(&*self);
        }
        if self.cursor >= SECTOR_LEN {
            return None;
        }
        let i = self.cursor;
        let x = (i % SECTOR_SIZE) as isize;
        let y = ((i / SECTOR_SIZE) % SECTOR_SIZE) as isize;
        let z = (i / (SECTOR_SIZE * SECTOR_SIZE)) as isize;
        let pos = SectorSpaceCoords::new(x, y, z);
        proof {
            lemma_index_onto(i as int);
            SectorSpaceCoords::lemma_components_determine(pos, coords_at(i as int));
        }
        self.cursor = i + 1;
        Some((pos, &self.list.0[i]))
    }
}

impl BlockList {
    /// Walk the list from its first voxel.
    pub fn iter(&self) -> (it: BlockListIter<'_>)
        ensures
            it.position() == 0,
            it.list() == *self,
    {
        BlockListIter { list: self, cursor: 0 }
    }
}

/// The index of a voxel of the sector lies in `[0, SECTOR_LEN)`.
pub proof fn lemma_index_in_range(pos: SectorSpaceCoords)
    requires
        pos.wf(),
    ensures
        0 <= BlockList::spec_index(pos) < SECTOR_LEN,
{
}

/// No two voxels of the sector share an index.
pub proof fn lemma_index_injective(a: SectorSpaceCoords, b: SectorSpaceCoords)
    requires
        a.wf(),
        b.wf(),
        BlockList::spec_index(a) == BlockList::spec_index(b),
    ensures
        a == b,
{
    SectorSpaceCoords::lemma_components_determine(a, b);
}

/// Every index in `[0, SECTOR_LEN)` is the index of a voxel of the sector,
/// namely of `coords_at(i)`.
pub proof fn lemma_index_onto(i: int)
    requires
        0 <= i < SECTOR_LEN,
    ensures
        coords_at(i).wf(),
        BlockList::spec_index(coords_at(i)) == i,
{
    let x = i % 32;
    let y = (i / 32) % 32;
    let z = i / 1024;
    assert(i / 32 == z * 32 + y);
    assert(i == x + y * 32 + z * 1024);
    SectorSpaceCoords::lemma_at(x, y, z);
}

/// `coords_at` undoes `spec_index`: the voxel kept at the index of `pos` is
/// `pos` itself.
pub proof fn lemma_coords_at_index(pos: SectorSpaceCoords)
    requires
        pos.wf(),
    ensures
        coords_at(BlockList::spec_index(pos)) == pos,
{
    let i = BlockList::spec_index(pos);
    lemma_index_onto(i);
    lemma_index_injective(coords_at(i), pos);
}

/// The flattened layout orders the voxels by `z`, then by `y`, then by `x`.
pub proof fn lemma_index_order(a: SectorSpaceCoords, b: SectorSpaceCoords)
    requires
        a.wf(),
        b.wf(),
    ensures
        BlockList::spec_index(a) < BlockList::spec_index(b) <==> {
            ||| a.z() < b.z()
            ||| a.z() == b.z() && a.y() < b.y()
            ||| a.z() == b.z() && a.y() == b.y() && a.x() < b.x()
        },
{
}

/// A list of air alone needs no rendering, and it does as soon as one of
/// its voxels is made solid.
pub proof fn lemma_one_solid_block(list: BlockList, pos: SectorSpaceCoords, block: Block)
    requires
        forall|i: int| 0 <= i < SECTOR_LEN ==> list@[i] == Block::Air,
        pos.wf(),
        block.is_solid(),
    ensures
        !has_solid(list@),
        has_solid(list@.update(BlockList::spec_index(pos), block)),
{
    list.lemma_len();
    let changed = list@.update(BlockList::spec_index(pos), block);
    assert(changed[BlockList::spec_index(pos)].is_solid());
}

} // verus!
