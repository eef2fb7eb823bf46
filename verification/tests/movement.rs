use voxel_terrain::movement::MovementDirection;

#[test]
fn the_four_directions_differ() {
    let all = [
        MovementDirection::Forward,
        MovementDirection::Backward,
        MovementDirection::Left,
        MovementDirection::Right,
    ];
    for (i, a) in all.iter().enumerate() {
        for (j, b) in all.iter().enumerate() {
            assert_eq!(a == b, i == j);
        }
    }
}
