use snake_sim::game::{Game, GameState, FOOD_SPAWN_PERIOD_MS, SNAKE_MOVEMENT_PERIOD_MS};
use snake_sim::grid::Position;
use snake_sim::timer::TickTimer;

fn pos(x: i32, y: i32) -> Position {
    Position { x, y }
}

/// A game that has run its start-up step and is `Running`.
fn running_game() -> Game {
    let mut g = Game::new();
    g.update(0);
    assert_eq!(g.state, GameState::Running);
    g
}

#[test]
fn timer_accumulates_fires_and_keeps_remainder() {
    let mut t = TickTimer::new(250);
    assert!(!t.tick(100));
    assert_eq!(t.elapsed_ms, 100);
    assert!(!t.tick(149));
    assert_eq!(t.elapsed_ms, 249);
    assert!(t.tick(1));
    assert_eq!(t.elapsed_ms, 0);
    assert!(t.tick(260));
    assert_eq!(t.elapsed_ms, 10);
}

#[test]
fn configured_periods() {
    assert_eq!(SNAKE_MOVEMENT_PERIOD_MS, 250);
    assert_eq!(FOOD_SPAWN_PERIOD_MS, 1500);
}

#[test]
fn startup_spawns_the_fixed_snake() {
    let g = running_game();
    assert_eq!(g.snake.head, pos(3, 3));
    assert_eq!(g.snake.body, vec![pos(3, 2)]);
    assert_eq!(g.food, None);
}

#[test]
fn one_tick_moves_the_snake_up() {
    let mut g = running_game();
    g.update(250);
    assert_eq!(g.state, GameState::Running);
    assert_eq!(g.snake.head, pos(3, 4));
    assert_eq!(g.snake.body, vec![pos(3, 3)]);
}

#[test]
fn a_short_frame_moves_nothing() {
    let mut g = running_game();
    g.update(100);
    assert_eq!(g.snake.head, pos(3, 3));
    assert_eq!(g.snake.body, vec![pos(3, 2)]);
    assert_eq!(g.state, GameState::Running);
}

#[test]
fn running_into_the_wall_ends_the_game() {
    let mut g = running_game();
    // head starts at y = 3 facing Up; it may reach y = 14, so eleven
    // ticks succeed, and the tick whose computed next y would be 15
    // ends the game
    for i in 1..=11u32 {
        g.update(250);
        assert_eq!(g.state, GameState::Running, "tick {i} must still run");
        assert_eq!(g.snake.head, pos(3, 3 + i as i32));
    }
    g.update(250);
    assert_eq!(g.state, GameState::Ended);
    // positions are untouched on the ending tick
    assert_eq!(g.snake.head, pos(3, 14));
}

#[test]
fn eating_grows_and_consumes_the_food() {
    let mut g = running_game();
    // place food exactly on the snake's next head cell
    g.food = Some(pos(3, 4));
    g.update(250);
    assert_eq!(g.state, GameState::Running);
    assert_eq!(g.snake.head, pos(3, 4));
    assert_eq!(g.food, None);
    assert_eq!(g.snake.body.len(), 2);
    assert_eq!(g.snake.body, vec![pos(3, 3), pos(3, 2)]);
}

#[test]
fn pause_freezes_and_resumes() {
    let mut g = running_game();
    g.game_control_input(true);
    assert_eq!(g.state, GameState::Paused);
    // frames while paused change nothing
    g.update(250);
    g.update(250);
    assert_eq!(g.snake.head, pos(3, 3));
    assert_eq!(g.state, GameState::Paused);
    g.game_control_input(true);
    assert_eq!(g.state, GameState::Running);
}

#[test]
fn unpressed_key_changes_nothing() {
    let mut g = running_game();
    g.game_control_input(false);
    assert_eq!(g.state, GameState::Running);
    assert_eq!(g.snake.head, pos(3, 3));
}

#[test]
fn starting_accepts_no_control_input() {
    let mut g = Game::new();
    assert_eq!(g.state, GameState::Starting);
    g.game_control_input(true);
    assert_eq!(g.state, GameState::Starting);
}

#[test]
fn restart_cycle_resets_food_and_snake() {
    let mut g = running_game();
    // drive the snake into the top wall; food may spawn on the way
    for _ in 0..40 {
        if g.state == GameState::Ended {
            break;
        }
        g.update(250);
    }
    assert_eq!(g.state, GameState::Ended);

    // restart: leaving Ended destroys food and segments ...
    g.game_control_input(true);
    assert_eq!(g.state, GameState::Starting);
    assert_eq!(g.food, None);
    assert_eq!(g.snake.body.len(), 0);

    // ... and the next frame spawns the fixed configuration
    g.update(250);
    assert_eq!(g.state, GameState::Running);
    assert_eq!(g.food, None);
    assert_eq!(g.snake.head, pos(3, 3));
    assert_eq!(g.snake.body, vec![pos(3, 2)]);
    // exactly two occupied cells: the head and one segment
    assert_eq!(1 + g.snake.body.len(), 2);
    assert_eq!(g.snake.direction, snake_sim::direction::Direction::Up);
}
