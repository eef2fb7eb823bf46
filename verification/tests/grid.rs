use voxel_terrain::block::Block;
use voxel_terrain::coords::{SectorSpaceCoords, SECTOR_LEN, SECTOR_SIZE, SECTOR_SIZE_S};
use voxel_terrain::grid::BlockList;

const SOLID: [Block; 5] = [Block::Limestone, Block::Loam, Block::Grass, Block::Tree, Block::Leaves];

#[test]
fn air_is_the_only_block_that_is_not_solid() {
    assert!(Block::Air.is_air());
    assert!(!Block::Air.needs_rendering());
    for block in SOLID {
        assert!(!block.is_air());
        assert!(block.needs_rendering());
    }
}

#[test]
fn sector_constants_agree() {
    assert_eq!(SECTOR_SIZE, 32);
    assert_eq!(SECTOR_SIZE_S, 32);
    assert_eq!(SECTOR_LEN, 32 * 32 * 32);
}

#[test]
fn new_coords_keep_their_components() {
    let c = SectorSpaceCoords::new(3, 17, 31);
    assert_eq!(c.x(), 3);
    assert_eq!(c.y(), 17);
    assert_eq!(c.z(), 31);
    assert_eq!(SectorSpaceCoords::try_new(3, 17, 31), Some(c));
}

#[test]
fn try_new_accepts_the_corners_of_the_sector() {
    for x in [0, 31] {
        for y in [0, 31] {
            for z in [0, 31] {
                let c = SectorSpaceCoords::try_new(x, y, z).unwrap();
                assert_eq!((c.x(), c.y(), c.z()), (x, y, z));
            }
        }
    }
}

#[test]
fn try_new_rejects_components_out_of_range() {
    assert_eq!(SectorSpaceCoords::try_new(-1, 0, 0), None);
    assert_eq!(SectorSpaceCoords::try_new(0, -1, 0), None);
    assert_eq!(SectorSpaceCoords::try_new(0, 0, -1), None);
    assert_eq!(SectorSpaceCoords::try_new(32, 0, 0), None);
    assert_eq!(SectorSpaceCoords::try_new(0, 32, 0), None);
    assert_eq!(SectorSpaceCoords::try_new(0, 0, 32), None);
    assert_eq!(SectorSpaceCoords::try_new(isize::MIN, 5, 5), None);
    assert_eq!(SectorSpaceCoords::try_new(5, 5, isize::MAX), None);
}

#[test]
fn neighbours_inside_the_sector_are_one_step_away() {
    let c = SectorSpaceCoords::new(10, 20, 30);
    assert_eq!(c.back(), Some(SectorSpaceCoords::new(10, 20, 29)));
    assert_eq!(c.front(), Some(SectorSpaceCoords::new(10, 20, 31)));
    assert_eq!(c.top(), Some(SectorSpaceCoords::new(10, 21, 30)));
    assert_eq!(c.bottom(), Some(SectorSpaceCoords::new(10, 19, 30)));
    assert_eq!(c.left(), Some(SectorSpaceCoords::new(9, 20, 30)));
    assert_eq!(c.right(), Some(SectorSpaceCoords::new(11, 20, 30)));
}

#[test]
fn neighbours_across_a_face_are_none() {
    let low = SectorSpaceCoords::new(0, 0, 0);
    assert_eq!(low.back(), None);
    assert_eq!(low.bottom(), None);
    assert_eq!(low.left(), None);
    assert!(low.front().is_some());
    assert!(low.top().is_some());
    assert!(low.right().is_some());
    let high = SectorSpaceCoords::new(31, 31, 31);
    assert_eq!(high.front(), None);
    assert_eq!(high.top(), None);
    assert_eq!(high.right(), None);
    assert!(high.back().is_some());
    assert!(high.bottom().is_some());
    assert!(high.left().is_some());
}

#[test]
fn every_voxel_has_a_neighbour_exactly_where_it_is_not_on_that_face() {
    for x in 0..SECTOR_SIZE_S {
        for y in 0..SECTOR_SIZE_S {
            for z in 0..SECTOR_SIZE_S {
                let c = SectorSpaceCoords::new(x, y, z);
                let step = |n: Option<SectorSpaceCoords>| n.map(|n| (n.x(), n.y(), n.z()));
                assert_eq!(step(c.back()), if z > 0 { Some((x, y, z - 1)) } else { None });
                assert_eq!(step(c.front()), if z < 31 { Some((x, y, z + 1)) } else { None });
                assert_eq!(step(c.top()), if y < 31 { Some((x, y + 1, z)) } else { None });
                assert_eq!(step(c.bottom()), if y > 0 { Some((x, y - 1, z)) } else { None });
                assert_eq!(step(c.left()), if x > 0 { Some((x - 1, y, z)) } else { None });
                assert_eq!(step(c.right()), if x < 31 { Some((x + 1, y, z)) } else { None });
            }
        }
    }
}

#[test]
fn index_follows_the_flattened_layout() {
    assert_eq!(BlockList::index(SectorSpaceCoords::new(0, 0, 0)), 0);
    assert_eq!(BlockList::index(SectorSpaceCoords::new(1, 0, 0)), 1);
    assert_eq!(BlockList::index(SectorSpaceCoords::new(0, 1, 0)), 32);
    assert_eq!(BlockList::index(SectorSpaceCoords::new(0, 0, 1)), 1024);
    assert_eq!(BlockList::index(SectorSpaceCoords::new(1, 2, 3)), 3137);
    assert_eq!(BlockList::index(SectorSpaceCoords::new(31, 31, 31)), 32767);
}

#[test]
fn index_maps_the_voxels_one_to_one_onto_the_range() {
    let mut seen = vec![false; SECTOR_LEN];
    for x in 0..SECTOR_SIZE_S {
        for y in 0..SECTOR_SIZE_S {
            for z in 0..SECTOR_SIZE_S {
                let i = BlockList::index(SectorSpaceCoords::new(x, y, z));
                assert!(i < SECTOR_LEN);
                assert!(!seen[i]);
                seen[i] = true;
            }
        }
    }
    assert!(seen.iter().all(|&hit| hit));
}

#[test]
fn a_list_of_air_needs_no_rendering() {
    assert!(!BlockList::new_air().needs_rendering());
    assert!(!BlockList::new([Block::Air; SECTOR_LEN]).needs_rendering());
}

#[test]
fn one_solid_voxel_makes_the_list_need_rendering() {
    for block in SOLID {
        for (x, y, z) in [(0, 0, 0), (31, 31, 31), (5, 0, 17)] {
            let mut list = BlockList::new_air();
            list.set(SectorSpaceCoords::new(x, y, z), block);
            assert!(list.needs_rendering());
            list.set(SectorSpaceCoords::new(x, y, z), Block::Air);
            assert!(!list.needs_rendering());
        }
    }
}

#[test]
fn a_list_built_from_an_array_keeps_its_blocks() {
    let mut blocks = [Block::Air; SECTOR_LEN];
    blocks[0] = Block::Grass;
    blocks[3137] = Block::Tree;
    blocks[32767] = Block::Leaves;
    let list = BlockList::new(blocks);
    assert_eq!(*list.get(SectorSpaceCoords::new(0, 0, 0)), Block::Grass);
    assert_eq!(*list.get(SectorSpaceCoords::new(1, 2, 3)), Block::Tree);
    assert_eq!(*list.get(SectorSpaceCoords::new(31, 31, 31)), Block::Leaves);
    assert_eq!(*list.get(SectorSpaceCoords::new(3, 2, 1)), Block::Air);
    assert!(list.needs_rendering());
}

#[test]
fn set_changes_one_voxel_and_no_other() {
    let mut list = BlockList::new([Block::Loam; SECTOR_LEN]);
    let target = SectorSpaceCoords::new(7, 8, 9);
    list.set(target, Block::Limestone);
    for x in 0..SECTOR_SIZE_S {
        for y in 0..SECTOR_SIZE_S {
            for z in 0..SECTOR_SIZE_S {
                let expected = if (x, y, z) == (7, 8, 9) { Block::Limestone } else { Block::Loam };
                assert_eq!(*list.get(SectorSpaceCoords::new(x, y, z)), expected);
            }
        }
    }
}

#[test]
fn iteration_walks_x_first_then_y_then_z() {
    let list = BlockList::new_air();
    let mut it = list.iter();
    let mut order = Vec::new();
    while let Some((pos, _)) = it.next() {
        order.push((pos.x(), pos.y(), pos.z()));
    }
    assert_eq!(order.len(), SECTOR_LEN);
    assert_eq!(order[0], (0, 0, 0));
    assert_eq!(order[1], (1, 0, 0));
    assert_eq!(order[31], (31, 0, 0));
    assert_eq!(order[32], (0, 1, 0));
    assert_eq!(order[1023], (31, 31, 0));
    assert_eq!(order[1024], (0, 0, 1));
    assert_eq!(order[32767], (31, 31, 31));
    for (i, &(x, y, z)) in order.iter().enumerate() {
        assert_eq!(BlockList::index(SectorSpaceCoords::new(x, y, z)), i);
    }
}

#[test]
fn iteration_yields_the_block_of_each_voxel() {
    let mut list = BlockList::new_air();
    list.set(SectorSpaceCoords::new(1, 2, 3), Block::Grass);
    list.set(SectorSpaceCoords::new(0, 0, 0), Block::Loam);
    let mut it = list.iter();
    let mut solid = Vec::new();
    while let Some((pos, block)) = it.next() {
        assert_eq!(*block, *list.get(pos));
        if block.needs_rendering() {
            solid.push(((pos.x(), pos.y(), pos.z()), *block));
        }
    }
    assert_eq!(solid, vec![((0, 0, 0), Block::Loam), ((1, 2, 3), Block::Grass)]);
}

#[test]
fn iteration_ends_for_good_and_starts_anew_per_call() {
    let list = BlockList::new_air();
    let mut it = list.iter();
    let mut count = 0;
    while it.next().is_some() {
        count += 1;
    }
    assert_eq!(count, SECTOR_LEN);
    assert!(it.next().is_none());
    assert!(it.next().is_none());
    let mut again = list.iter();
    let (first, _) = again.next().unwrap();
    assert_eq!((first.x(), first.y(), first.z()), (0, 0, 0));
}
