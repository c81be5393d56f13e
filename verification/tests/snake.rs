use wrg_snake::snake::{Snake, MAX_LENGTH};
use wrg_snake::IntVector2;

#[test]
fn start_long_and_move_around() {
    let mut snake = Snake::new(IntVector2 { x: 0, y: 0 }, 3);
    snake.move_to(IntVector2 { x: 1, y: 0 });
    snake.move_to(IntVector2 { x: 2, y: 0 });
    snake.move_to(IntVector2 { x: 3, y: 0 });
    snake.move_to(IntVector2 { x: 4, y: 0 });
    snake.move_to(IntVector2 { x: 5, y: 0 });
    snake.move_to(IntVector2 { x: 6, y: 0 });

    for position in snake.positions() {
        println!("position: {:?}", position);
    }
    assert_eq!(
        snake.positions(),
        vec![
            IntVector2 { x: 6, y: 0 },
            IntVector2 { x: 5, y: 0 },
            IntVector2 { x: 4, y: 0 },
        ]
    );
}

#[test]
fn grow_can_go_beyond_history() {
    let mut snake = Snake::new(IntVector2 { x: 0, y: 0 }, 1);
    snake.move_to(IntVector2 { x: 1, y: 0 });
    snake.move_to(IntVector2 { x: 2, y: 0 });

    for _ in 0..5 {
        snake.grow();
    }

    assert_eq!(snake.length(), 6);
    let cells = snake.positions();
    let mut positions = cells.iter();
    assert_eq!(positions.next(), Some(&IntVector2 { x: 2, y: 0 }));
    assert_eq!(positions.next(), Some(&IntVector2 { x: 1, y: 0 }));
    assert_eq!(positions.next(), Some(&IntVector2 { x: 0, y: 0 }));
    assert_eq!(positions.next(), Some(&IntVector2 { x: 0, y: 0 }));
    assert_eq!(positions.next(), Some(&IntVector2 { x: 0, y: 0 }));
    assert_eq!(positions.next(), Some(&IntVector2 { x: 0, y: 0 }));
    assert_eq!(positions.next(), None);
}

#[test]
fn normal_condition_test_everything() {
    let mut snake = Snake::new(IntVector2 { x: 0, y: 0 }, 1);
    assert_eq!(snake.length(), 1);
    assert_eq!(snake.current_position(), IntVector2 { x: 0, y: 0 });

    snake.move_to(IntVector2 { x: 1, y: 0 });
    assert_eq!(snake.length(), 1);
    assert_eq!(snake.current_position(), IntVector2 { x: 1, y: 0 });

    snake.grow();
    assert_eq!(snake.length(), 2);
    assert_eq!(snake.current_position(), IntVector2 { x: 1, y: 0 });

    snake.grow();
    assert_eq!(snake.length(), 3);
    assert_eq!(snake.current_position(), IntVector2 { x: 1, y: 0 });

    snake.move_to(IntVector2 { x: 201, y: -30 });
    assert_eq!(snake.length(), 3);
    assert_eq!(snake.current_position(), IntVector2 { x: 201, y: -30 });
}

#[test]
fn fresh_snake_lies_on_its_start() {
    let start = IntVector2 { x: 4, y: 9 };
    for n in [1usize, 2, 3, 17, MAX_LENGTH] {
        let snake = Snake::new(start, n);
        assert_eq!(snake.length(), n);
        assert_eq!(snake.current_position(), start);
        let cells = snake.positions();
        assert_eq!(cells.len(), n);
        assert!(cells.iter().all(|cell| *cell == start));
    }
}

#[test]
fn start_length_of_zero_gives_one_segment() {
    let snake = Snake::new(IntVector2 { x: 1, y: 1 }, 0);
    assert_eq!(snake.length(), 1);
    assert_eq!(snake.positions(), vec![IntVector2 { x: 1, y: 1 }]);
}

#[test]
fn history_keeps_the_newest_cells_when_full() {
    let mut snake = Snake::new(IntVector2 { x: 0, y: 0 }, MAX_LENGTH);
    let moves = MAX_LENGTH as i32 + 5;
    for step in 1..=moves {
        snake.move_to(IntVector2 { x: step, y: 0 });
    }
    let cells = snake.positions();
    assert_eq!(cells.len(), MAX_LENGTH);
    assert_eq!(cells[0], IntVector2 { x: moves, y: 0 });
    assert_eq!(cells[1], IntVector2 { x: moves - 1, y: 0 });
    // The oldest cells, the start among them, have been dropped.
    assert_eq!(cells[MAX_LENGTH - 1], IntVector2 { x: 6, y: 0 });
    assert_eq!(snake.current_position(), IntVector2 { x: moves, y: 0 });
}

#[test]
fn tail_catches_up_after_growth() {
    let mut snake = Snake::new(IntVector2 { x: 0, y: 0 }, 2);
    snake.move_to(IntVector2 { x: 0, y: 1 });
    assert_eq!(snake.positions(), vec![IntVector2 { x: 0, y: 1 }, IntVector2 { x: 0, y: 0 }]);
    snake.grow();
    assert_eq!(
        snake.positions(),
        vec![IntVector2 { x: 0, y: 1 }, IntVector2 { x: 0, y: 0 }, IntVector2 { x: 0, y: 0 }]
    );
    snake.move_to(IntVector2 { x: 0, y: 2 });
    assert_eq!(
        snake.positions(),
        vec![IntVector2 { x: 0, y: 2 }, IntVector2 { x: 0, y: 1 }, IntVector2 { x: 0, y: 0 }]
    );
}
