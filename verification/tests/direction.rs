use wrg_snake::{Direction, IntVector2};

const ALL: [Direction; 4] = [Direction::Up, Direction::Right, Direction::Down, Direction::Left];

#[test]
fn opposite_of_opposite_is_the_direction_itself() {
    for d in ALL {
        assert_eq!(d.opposite().opposite(), d);
        assert_ne!(d.opposite(), d);
    }
}

#[test]
fn opposite_pairs_up_and_down_and_left_and_right() {
    assert_eq!(Direction::Up.opposite(), Direction::Down);
    assert_eq!(Direction::Down.opposite(), Direction::Up);
    assert_eq!(Direction::Left.opposite(), Direction::Right);
    assert_eq!(Direction::Right.opposite(), Direction::Left);
}

#[test]
fn every_direction_has_its_unit_offset() {
    assert_eq!(Direction::Up.to_position(), IntVector2 { x: 0, y: 1 });
    assert_eq!(Direction::Right.to_position(), IntVector2 { x: 1, y: 0 });
    assert_eq!(Direction::Down.to_position(), IntVector2 { x: 0, y: -1 });
    assert_eq!(Direction::Left.to_position(), IntVector2 { x: -1, y: 0 });
}

#[test]
fn offsets_of_opposite_directions_cancel() {
    for d in ALL {
        let sum = d.to_position() + d.opposite().to_position();
        assert_eq!(sum, IntVector2 { x: 0, y: 0 });
    }
}
