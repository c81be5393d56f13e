use wrg_snake::{Grid, IntVector2};

#[test]
fn contains_works_as_expected() {
    let grid = Grid::new(5, 5);
    assert!(grid.contains(IntVector2 { x: 0, y: 0 }));
    assert!(grid.contains(IntVector2 { x: 4, y: 4 }));
    assert!(grid.contains(IntVector2 { x: 0, y: 4 }));
    assert!(grid.contains(IntVector2 { x: 4, y: 0 }));
    assert!(grid.contains(IntVector2 { x: 2, y: 2 }));
    assert!(grid.contains(IntVector2 { x: 4, y: 1 }));

    // doesn't contains
    assert!(!grid.contains(IntVector2 { x: -1, y: 0 }));
    assert!(!grid.contains(IntVector2 { x: 0, y: 5 }));
    assert!(!grid.contains(IntVector2 { x: 2, y: 10 }));
    assert!(!grid.contains(IntVector2 { x: 30, y: 1 }));
}

#[test]
fn wrap_works_as_expected() {
    let grid = Grid::new(5, 5);
    assert_eq!(grid.wrap(IntVector2 { x: 0, y: 0 }), IntVector2 { x: 0, y: 0 });
    assert_eq!(grid.wrap(IntVector2 { x: 4, y: 4 }), IntVector2 { x: 4, y: 4 });
    assert_eq!(grid.wrap(IntVector2 { x: 0, y: 4 }), IntVector2 { x: 0, y: 4 });
    assert_eq!(grid.wrap(IntVector2 { x: 4, y: 0 }), IntVector2 { x: 4, y: 0 });
    assert_eq!(grid.wrap(IntVector2 { x: -2, y: 0 }), IntVector2 { x: 3, y: 0 });
    assert_eq!(grid.wrap(IntVector2 { x: 1, y: 5 }), IntVector2 { x: 1, y: 0 });
    assert_eq!(grid.wrap(IntVector2 { x: -1, y: 8 }), IntVector2 { x: 4, y: 3 });
}

#[test]
fn wrap_of_any_position_lies_on_the_grid() {
    let grid = Grid::new(7, 3);
    for x in -20..20 {
        for y in -20..20 {
            let position = IntVector2 { x, y };
            let cell = grid.wrap(position);
            assert!(grid.contains(cell));
            if grid.contains(position) {
                assert_eq!(cell, position);
            }
            assert_eq!(grid.wrap(cell), cell);
        }
    }
}

#[test]
fn wrap_handles_the_extremes_of_i32() {
    let grid = Grid::new(10, 7);
    let cell = grid.wrap(IntVector2 { x: i32::MIN, y: i32::MAX });
    assert_eq!(cell, IntVector2 { x: 2, y: 1 });
    let cell = grid.wrap(IntVector2 { x: i32::MAX, y: i32::MIN });
    assert_eq!(cell, IntVector2 { x: 7, y: 5 });
    let grid = Grid::new(u16::MAX, 1);
    let cell = grid.wrap(IntVector2 { x: i32::MIN, y: i32::MAX });
    assert_eq!(cell, IntVector2 { x: 32767, y: 0 });
}

#[test]
fn vectors_add_and_subtract_by_component() {
    let a = IntVector2 { x: 3, y: -4 };
    let b = IntVector2 { x: -10, y: 6 };
    assert_eq!(a + b, IntVector2 { x: -7, y: 2 });
    assert_eq!(a - b, IntVector2 { x: 13, y: -10 });
    assert_eq!(a + b - b, a);
}

#[test]
fn grid_without_cells_is_rejected() {
    assert!(Grid::checked(0, 5).is_none());
    assert!(Grid::checked(5, 0).is_none());
    assert!(Grid::checked(0, 0).is_none());
    let grid = Grid::checked(3, 4).unwrap();
    assert_eq!((grid.width, grid.height), (3, 4));
    let grid = Grid::checked(1, u16::MAX).unwrap();
    assert_eq!((grid.width, grid.height), (1, u16::MAX));
}
