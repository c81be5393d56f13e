use wrg_snake::application::{
    calculate_next_state, config, grid, score, ApplicationScreen, ScreenChange, GAME_OVER_DELAY, START_LENGTH,
};
use wrg_snake::{Direction, IntVector2, SnakeGameState};

#[test]
fn standard_game_is_fifteen_by_fifteen() {
    let grid = grid();
    assert_eq!((grid.width, grid.height), (15, 15));
    let config = config();
    assert_eq!(config.start_position, IntVector2 { x: 0, y: 13 });
    assert_eq!(config.start_length, 3);
    assert_eq!(config.start_direction, Direction::Right);
    assert!(config.input_allowed);
    assert_eq!((config.grid.width, config.grid.height), (15, 15));
    assert!(config.is_playable());
}

#[test]
fn click_starts_a_game_from_title_and_game_over() {
    for screen in [ApplicationScreen::TitleScreen, ApplicationScreen::GameOver] {
        for state in [SnakeGameState::Running, SnakeGameState::Finished { size: 9, time: 0 }] {
            assert_eq!(calculate_next_state(screen, true, state, 5_000_000), Some(ScreenChange::NewGame));
            assert_eq!(calculate_next_state(screen, false, state, 5_000_000), None);
        }
    }
}

#[test]
fn finished_game_gives_way_after_the_delay() {
    let finished = SnakeGameState::Finished { size: 7, time: 2_000_000 };
    let screen = ApplicationScreen::Running;
    assert_eq!(GAME_OVER_DELAY, 1_000_000);
    assert_eq!(calculate_next_state(screen, false, finished, 2_000_000), None);
    assert_eq!(calculate_next_state(screen, false, finished, 3_000_000), None);
    assert_eq!(
        calculate_next_state(screen, false, finished, 3_000_001),
        Some(ScreenChange::GameOver { size: 7 })
    );
    // A clock that runs behind the time of death changes nothing.
    assert_eq!(calculate_next_state(screen, false, finished, 1_000_000), None);
    // Clicks do not matter while a game is on screen.
    assert_eq!(calculate_next_state(screen, true, finished, 2_500_000), None);
    assert_eq!(calculate_next_state(screen, true, SnakeGameState::Running, 9_000_000), None);
}

#[test]
fn score_counts_the_segments_gained() {
    assert_eq!(START_LENGTH, 3);
    assert_eq!(score(3), 0);
    assert_eq!(score(4), 1);
    assert_eq!(score(20), 17);
}
