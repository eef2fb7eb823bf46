use voxel_terrain::lattice::{sector_at, SectorCoords, EVICTION_DISTANCE_SQ};

#[test]
fn sector_at_divides_by_the_sector_edge_and_rounds_down() {
    assert_eq!(sector_at(0, 0, 0), SectorCoords::new(0, 0, 0));
    assert_eq!(sector_at(31, 32, 63), SectorCoords::new(0, 1, 1));
    assert_eq!(sector_at(64, 100, 1000), SectorCoords::new(2, 3, 31));
    assert_eq!(sector_at(-1, -32, -33), SectorCoords::new(-1, -1, -2));
    assert_eq!(sector_at(-31, -64, -65), SectorCoords::new(-1, -2, -3));
}

#[test]
fn sector_at_stays_inside_the_lattice() {
    let far = sector_at(i64::MAX, i64::MIN, 0);
    assert_eq!(far, SectorCoords::new(i32::MAX, i32::MIN, 0));
    let edge = sector_at(i32::MAX as i64 * 32 + 31, i32::MIN as i64 * 32, i32::MAX as i64 * 32 + 32);
    assert_eq!(edge, SectorCoords::new(i32::MAX, i32::MIN, i32::MAX));
    let last = sector_at(i32::MIN as i64 * 32 - 1, 0, 0);
    assert_eq!(last.x, i32::MIN);
}

#[test]
fn sector_neighbours_are_one_step_along_one_axis() {
    let c = SectorCoords::new(4, -7, 9);
    assert_eq!(c.back(), Some(SectorCoords::new(4, -7, 8)));
    assert_eq!(c.front(), Some(SectorCoords::new(4, -7, 10)));
    assert_eq!(c.top(), Some(SectorCoords::new(4, -6, 9)));
    assert_eq!(c.bottom(), Some(SectorCoords::new(4, -8, 9)));
    assert_eq!(c.left(), Some(SectorCoords::new(3, -7, 9)));
    assert_eq!(c.right(), Some(SectorCoords::new(5, -7, 9)));
}

#[test]
fn the_lattice_ends_at_its_rim() {
    let low = SectorCoords::new(i32::MIN, i32::MIN, i32::MIN);
    assert_eq!(low.back(), None);
    assert_eq!(low.bottom(), None);
    assert_eq!(low.left(), None);
    assert_eq!(low.front(), Some(SectorCoords::new(i32::MIN, i32::MIN, i32::MIN + 1)));
    let high = SectorCoords::new(i32::MAX, i32::MAX, i32::MAX);
    assert_eq!(high.front(), None);
    assert_eq!(high.top(), None);
    assert_eq!(high.right(), None);
    assert_eq!(high.left(), Some(SectorCoords::new(i32::MAX - 1, i32::MAX, i32::MAX)));
}

#[test]
fn offset_adds_where_the_sum_fits() {
    let c = SectorCoords::new(1, 2, 3);
    assert_eq!(c.offset(-3, 2, 0), Some(SectorCoords::new(-2, 4, 3)));
    assert_eq!(c.offset(i32::MAX, 0, 0), None);
    assert_eq!(c.offset(0, 0, i32::MAX - 3), Some(SectorCoords::new(1, 2, i32::MAX)));
    assert_eq!(SectorCoords::new(-1, 0, 0).offset(i32::MIN, 0, 0), None);
}

#[test]
fn reach_ends_below_the_eviction_distance() {
    assert_eq!(EVICTION_DISTANCE_SQ, 280);
    let o = SectorCoords::new(0, 0, 0);
    assert!(o.is_within_reach(o));
    assert!(SectorCoords::new(16, 4, 2).is_within_reach(o));
    assert!(SectorCoords::new(16, 4, -2).is_within_reach(o));
    assert!(!SectorCoords::new(16, 4, 3).is_within_reach(o));
    assert!(!SectorCoords::new(12, 10, 6).is_within_reach(o));
    assert!(SectorCoords::new(12, 10, 5).is_within_reach(o));
    assert!(!SectorCoords::new(17, 0, 0).is_within_reach(o));
    assert!(!SectorCoords::new(0, -17, 0).is_within_reach(o));
    assert!(SectorCoords::new(9, 9, 9).is_within_reach(o));
    assert!(!SectorCoords::new(10, 10, 10).is_within_reach(o));
}

#[test]
fn reach_is_measured_from_the_observer() {
    let o = SectorCoords::new(100, -50, 7);
    assert!(SectorCoords::new(116, -50, 7).is_within_reach(o));
    assert!(!SectorCoords::new(117, -50, 7).is_within_reach(o));
    assert!(o.is_within_reach(SectorCoords::new(116, -50, 7)));
}

#[test]
fn reach_is_decided_across_the_whole_lattice() {
    let low = SectorCoords::new(i32::MIN, i32::MIN, i32::MIN);
    let high = SectorCoords::new(i32::MAX, i32::MAX, i32::MAX);
    assert!(!low.is_within_reach(high));
    assert!(!high.is_within_reach(low));
    assert!(high.is_within_reach(SectorCoords::new(i32::MAX - 9, i32::MAX - 9, i32::MAX - 9)));
}

#[test]
fn origin_and_center_are_given_in_voxels() {
    assert_eq!(SectorCoords::new(0, 0, 0).origin(), (0, 0, 0));
    assert_eq!(SectorCoords::new(0, 0, 0).center(), (16, 16, 16));
    assert_eq!(SectorCoords::new(1, -1, 3).origin(), (32, -32, 96));
    assert_eq!(SectorCoords::new(1, -1, 3).center(), (48, -16, 112));
    assert_eq!(SectorCoords::new(i32::MAX, i32::MIN, 0).origin(), (68719476704, -68719476736, 0));
}

#[test]
fn a_sector_holds_the_voxels_from_its_origin_on() {
    for x in [-65i64, -64, -33, -32, -1, 0, 1, 31, 32, 95, 96] {
        let s = sector_at(x, x, x);
        let (ox, oy, oz) = s.origin();
        assert!(ox <= x && x < ox + 32);
        assert_eq!((ox, oy, oz), (ox, ox, ox));
    }
}
