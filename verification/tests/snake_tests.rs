use snake_sim::direction::Direction;
use snake_sim::grid::{in_bounds, Position, ARENA_HEIGHT, ARENA_WIDTH};
use snake_sim::snake::{get_next_head_pos, snake_eating_and_growth, spawn_snake, Snake};

fn pos(x: i32, y: i32) -> Position {
    Position { x, y }
}

#[test]
fn arena_is_fifteen_by_fifteen() {
    assert_eq!(ARENA_WIDTH, 15);
    assert_eq!(ARENA_HEIGHT, 15);
    assert!(in_bounds(pos(0, 0)));
    assert!(in_bounds(pos(14, 14)));
    assert!(!in_bounds(pos(-1, 0)));
    assert!(!in_bounds(pos(0, 15)));
    assert!(!in_bounds(pos(15, 3)));
}

#[test]
fn opposite_is_total_and_involutive() {
    assert_eq!(Direction::Up.opposite(), Direction::Down);
    assert_eq!(Direction::Down.opposite(), Direction::Up);
    assert_eq!(Direction::Left.opposite(), Direction::Right);
    assert_eq!(Direction::Right.opposite(), Direction::Left);
    for d in [Direction::Up, Direction::Down, Direction::Left, Direction::Right] {
        assert_eq!(d.opposite().opposite(), d);
        assert_ne!(d.opposite(), d);
    }
}

#[test]
fn next_head_inside_is_unit_displacement() {
    let empty: Vec<Position> = Vec::new();
    let p = pos(5, 7);
    assert_eq!(get_next_head_pos(p, Direction::Up, &empty), Some(pos(5, 8)));
    assert_eq!(get_next_head_pos(p, Direction::Down, &empty), Some(pos(5, 6)));
    assert_eq!(get_next_head_pos(p, Direction::Left, &empty), Some(pos(4, 7)));
    assert_eq!(get_next_head_pos(p, Direction::Right, &empty), Some(pos(6, 7)));
}

#[test]
fn next_head_outward_on_boundary_is_collision() {
    let empty: Vec<Position> = Vec::new();
    assert_eq!(get_next_head_pos(pos(0, 5), Direction::Left, &empty), None);
    assert_eq!(get_next_head_pos(pos(14, 5), Direction::Right, &empty), None);
    assert_eq!(get_next_head_pos(pos(5, 14), Direction::Up, &empty), None);
    assert_eq!(get_next_head_pos(pos(5, 0), Direction::Down, &empty), None);
}

#[test]
fn next_head_on_occupied_cell_is_collision() {
    let occupied = vec![pos(5, 8), pos(4, 4)];
    assert_eq!(get_next_head_pos(pos(5, 7), Direction::Up, &occupied), None);
    // the same move with that cell vacant succeeds
    let other = vec![pos(4, 4)];
    assert_eq!(get_next_head_pos(pos(5, 7), Direction::Up, &other), Some(pos(5, 8)));
}

#[test]
fn opposite_input_never_changes_committed_direction() {
    let mut s = spawn_snake();
    assert_eq!(s.direction, Direction::Up);
    assert_eq!(s.input_direction, None);

    // the exact opposite of the committed direction is ignored
    s.apply_input_direction(Some(Direction::Down));
    assert_eq!(s.input_direction, None);
    assert_eq!(s.direction, Direction::Up);

    // a sideways input is recorded
    s.apply_input_direction(Some(Direction::Left));
    assert_eq!(s.input_direction, Some(Direction::Left));

    // repeating the same input is harmless
    s.apply_input_direction(Some(Direction::Left));
    assert_eq!(s.input_direction, Some(Direction::Left));

    // no input leaves the pending input alone
    s.apply_input_direction(None);
    assert_eq!(s.input_direction, Some(Direction::Left));
}

#[test]
fn advance_keeps_length_and_shifts_body() {
    let mut s = spawn_snake();
    let moved = s.advance();
    assert!(moved);
    assert_eq!(s.head, pos(3, 4));
    assert_eq!(s.body, vec![pos(3, 3)]);
    assert_eq!(s.body.len(), 1);
    assert_eq!(s.last_tail, pos(3, 2));
    assert_eq!(s.direction, Direction::Up);
}

#[test]
fn advance_commits_pending_input() {
    let mut s = spawn_snake();
    s.apply_input_direction(Some(Direction::Right));
    let moved = s.advance();
    assert!(moved);
    assert_eq!(s.direction, Direction::Right);
    assert_eq!(s.head, pos(4, 3));
    assert_eq!(s.body, vec![pos(3, 3)]);
    // the pending input is retained, not cleared
    assert_eq!(s.input_direction, Some(Direction::Right));
}

#[test]
fn advance_into_own_body_is_collision_and_moves_nothing() {
    let mut s = Snake {
        head: pos(5, 5),
        direction: Direction::Up,
        input_direction: None,
        body: vec![pos(5, 6), pos(6, 6)],
        last_tail: pos(5, 4),
    };
    let moved = s.advance();
    assert!(!moved);
    assert_eq!(s.head, pos(5, 5));
    assert_eq!(s.body, vec![pos(5, 6), pos(6, 6)]);
    assert_eq!(s.last_tail, pos(5, 4));
}

#[test]
fn growth_appends_exactly_one_segment_on_the_vacated_cell() {
    let mut s = spawn_snake();
    let moved = s.advance();
    assert!(moved);
    let recorded_tail = s.last_tail;
    assert_eq!(recorded_tail, pos(3, 2));

    let mut food = Some(s.head);
    let grew = snake_eating_and_growth(&mut s, &mut food);
    assert!(grew);
    assert_eq!(food, None);
    assert_eq!(s.body.len(), 2);
    assert_eq!(*s.body.last().unwrap(), recorded_tail);
}

#[test]
fn eating_far_food_is_a_no_op() {
    let mut s = spawn_snake();
    let mut food = Some(pos(10, 10));
    let grew = snake_eating_and_growth(&mut s, &mut food);
    assert!(!grew);
    assert_eq!(food, Some(pos(10, 10)));
    assert_eq!(s.body.len(), 1);
}

#[test]
fn eating_with_no_food_is_a_no_op() {
    let mut s = spawn_snake();
    let mut food: Option<Position> = None;
    let grew = snake_eating_and_growth(&mut s, &mut food);
    assert!(!grew);
    assert_eq!(food, None);
    assert_eq!(s.body.len(), 1);
}
