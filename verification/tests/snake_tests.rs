use snake::Position;
use snake::snake::{Direction, GameState, LastTailPosition, SnakeSegments, Snakehead};
use snake::snake::resolve_direction;
use snake::food::{food_spawner, spawn_food};

fn pos(x: i32, y: i32) -> Position {
    Position { x, y }
}

fn state_with(segments: Vec<Position>, direction: Direction) -> GameState {
    GameState {
        width: 25,
        height: 25,
        head: Snakehead { direction },
        segments: SnakeSegments(segments),
        foods: Vec::new(),
        last_tail: LastTailPosition(None),
    }
}

#[test]
fn opposite_of_each_direction() {
    assert_eq!(Direction::Up.opposite(), Direction::Down);
    assert_eq!(Direction::Down.opposite(), Direction::Up);
    assert_eq!(Direction::Left.opposite(), Direction::Right);
    assert_eq!(Direction::Right.opposite(), Direction::Left);
}

#[test]
fn new_game_is_canonical() {
    let s = GameState::new(25, 25);
    assert_eq!(s.segments.0, vec![pos(3, 3), pos(3, 2)]);
    assert_eq!(s.head.direction, Direction::Up);
    assert!(s.foods.is_empty());
    assert_eq!(s.last_tail.0, None);
}

#[test]
fn wraparound_right_edge() {
    // The asymmetric bound: column `width` itself is reachable; only the step
    // beyond it wraps to column 0.
    let mut s = state_with(vec![pos(24, 3), pos(23, 3)], Direction::Right);
    let e = s.snake_movement();
    assert!(e.is_none());
    assert_eq!(s.segments.0[0], pos(25, 3));
    let e = s.snake_movement();
    assert!(e.is_none());
    assert_eq!(s.segments.0[0], pos(0, 3));
}

#[test]
fn wraparound_left_edge() {
    let mut s = state_with(vec![pos(0, 3), pos(1, 3)], Direction::Left);
    let e = s.snake_movement();
    assert!(e.is_none());
    assert_eq!(s.segments.0[0], pos(25, 3));
}

#[test]
fn wraparound_top_and_bottom() {
    let mut s = state_with(vec![pos(3, 25), pos(3, 24)], Direction::Up);
    let e = s.snake_movement();
    assert!(e.is_none());
    assert_eq!(s.segments.0[0], pos(3, 0));

    let mut s = state_with(vec![pos(3, 0), pos(3, 1)], Direction::Down);
    let e = s.snake_movement();
    assert!(e.is_none());
    assert_eq!(s.segments.0[0], pos(3, 25));
}

#[test]
fn no_reversal_keeps_direction() {
    assert_eq!(resolve_direction(Direction::Up, false, true, false, false), Direction::Up);
    assert_eq!(resolve_direction(Direction::Down, true, false, false, false), Direction::Down);
    assert_eq!(resolve_direction(Direction::Left, false, false, false, true), Direction::Left);
    assert_eq!(resolve_direction(Direction::Right, false, false, true, false), Direction::Right);
}

#[test]
fn no_key_keeps_direction() {
    assert_eq!(resolve_direction(Direction::Left, false, false, false, false), Direction::Left);
}

#[test]
fn key_priority_order_is_up_down_left_right() {
    // All four pressed: up wins unless it would reverse.
    assert_eq!(resolve_direction(Direction::Up, true, true, true, true), Direction::Up);
    assert_eq!(resolve_direction(Direction::Down, true, true, true, true), Direction::Down);
    // Down and left pressed: down wins.
    assert_eq!(resolve_direction(Direction::Right, false, true, true, false), Direction::Down);
}

#[test]
fn input_updates_state_direction() {
    let mut s = GameState::new(25, 25);
    s.snake_movement_input(false, false, true, false);
    assert_eq!(s.head.direction, Direction::Left);
    // Reversal request (right while facing left) is rejected.
    s.snake_movement_input(false, false, false, true);
    assert_eq!(s.head.direction, Direction::Left);
    // Everything else is untouched.
    assert_eq!(s.segments.0, vec![pos(3, 3), pos(3, 2)]);
}

#[test]
fn body_follows_head() {
    let p0 = pos(5, 5);
    let p1 = pos(5, 4);
    let p2 = pos(4, 4);
    let mut s = state_with(vec![p0, p1, p2], Direction::Up);
    let e = s.snake_movement();
    assert!(e.is_none());
    assert_eq!(s.segments.0, vec![pos(5, 6), p0, p1]);
    assert_eq!(s.last_tail.0, Some(p2));
}

#[test]
fn eating_removes_food_and_grows_by_one() {
    let mut s = state_with(vec![pos(5, 5), pos(5, 4)], Direction::Up);
    s.foods.push(pos(5, 6));
    s.foods.push(pos(1, 1));

    let e = s.snake_movement();
    assert!(e.is_none());
    assert_eq!(s.segments.0[0], pos(5, 6));
    let tail_record = s.last_tail.0;
    assert_eq!(tail_record, Some(pos(5, 4)));

    let events = s.snake_eating();
    assert_eq!(events.len(), 1);
    assert_eq!(s.foods, vec![pos(1, 1)]);

    let before = s.segments.0.len();
    s.snake_growth(&events);
    assert_eq!(s.segments.0.len(), before + 1);
    assert_eq!(s.segments.0.last().copied(), tail_record);
}

#[test]
fn two_foods_on_one_cell_both_despawn_one_segment_grows() {
    let mut s = state_with(vec![pos(5, 5), pos(5, 4)], Direction::Up);
    s.foods.push(pos(5, 6));
    s.foods.push(pos(5, 6));

    s.snake_movement();
    let events = s.snake_eating();
    assert_eq!(events.len(), 2);
    assert!(s.foods.is_empty());

    s.snake_growth(&events);
    // One append per tick with any signal present, not one per signal.
    assert_eq!(s.segments.0.len(), 3);
}

#[test]
fn growth_without_signal_is_a_no_op() {
    let mut s = GameState::new(25, 25);
    s.snake_growth(&Vec::new());
    assert_eq!(s.segments.0.len(), 2);
}

#[test]
fn growth_before_any_movement_is_a_no_op() {
    // No movement has recorded a tail position yet: the growth signal is
    // dropped safely instead of crashing.
    let mut s = GameState::new(25, 25);
    s.foods.push(pos(3, 3));
    let events = s.snake_eating();
    assert_eq!(events.len(), 1);
    assert_eq!(s.last_tail.0, None);
    s.snake_growth(&events);
    assert_eq!(s.segments.0.len(), 2);
}

#[test]
fn self_collision_raises_game_over_and_reset_restores_start() {
    // A head surrounded by its own body: moving up enters the body.
    let segs = vec![pos(5, 5), pos(5, 6), pos(6, 6), pos(6, 5), pos(6, 4)];
    let mut s = state_with(segs, Direction::Up);
    s.foods.push(pos(9, 9));

    let e = s.snake_movement();
    assert!(e.is_some());

    s.game_over(e);
    assert_eq!(s.segments.0, vec![pos(3, 3), pos(3, 2)]);
    assert_eq!(s.head.direction, Direction::Up);
    assert!(s.foods.is_empty());
}

#[test]
fn game_over_without_signal_changes_nothing() {
    let mut s = state_with(vec![pos(5, 5), pos(5, 4)], Direction::Left);
    s.foods.push(pos(1, 1));
    s.game_over(None);
    assert_eq!(s.segments.0, vec![pos(5, 5), pos(5, 4)]);
    assert_eq!(s.head.direction, Direction::Left);
    assert_eq!(s.foods, vec![pos(1, 1)]);
}

#[test]
fn movement_tick_runs_the_phases_in_order() {
    let mut s = state_with(vec![pos(5, 5), pos(5, 4)], Direction::Up);
    s.foods.push(pos(5, 6));
    let e = s.movement_tick();
    assert!(e.is_none());
    assert_eq!(s.segments.0, vec![pos(5, 6), pos(5, 5), pos(5, 4)]);
    assert!(s.foods.is_empty());
    assert_eq!(s.last_tail.0, Some(pos(5, 4)));
}

#[test]
fn movement_tick_resets_on_collision() {
    let segs = vec![pos(5, 5), pos(5, 6), pos(6, 6), pos(6, 5), pos(6, 4)];
    let mut s = state_with(segs, Direction::Up);
    s.foods.push(pos(9, 9));
    let e = s.movement_tick();
    assert!(e.is_some());
    assert_eq!(s.segments.0, vec![pos(3, 3), pos(3, 2)]);
    assert!(s.foods.is_empty());
}

#[test]
fn spawned_food_is_always_inside_the_arena() {
    for _ in 0..500 {
        let p = spawn_food(7, 5);
        assert!(0 <= p.x && p.x < 7);
        assert!(0 <= p.y && p.y < 5);
    }
}

#[test]
fn food_spawner_appends_one_food_in_bounds() {
    let mut s = GameState::new(25, 25);
    for round in 1..=50usize {
        food_spawner(&mut s);
        assert_eq!(s.foods.len(), round);
        let p = *s.foods.last().unwrap();
        assert!(0 <= p.x && p.x < 25);
        assert!(0 <= p.y && p.y < 25);
    }
    // The snake itself is untouched by the food tick.
    assert_eq!(s.segments.0, vec![pos(3, 3), pos(3, 2)]);
}

#[test]
fn spawn_segment_appends() {
    let mut s = GameState::new(25, 25);
    s.spawn_segment(pos(3, 1));
    assert_eq!(s.segments.0, vec![pos(3, 3), pos(3, 2), pos(3, 1)]);
}

#[test]
fn long_run_without_food_keeps_length() {
    let mut s = GameState::new(25, 25);
    for i in 0..1000 {
        // Steer in a widening pattern; length must stay 2 since nothing is
        // eaten and a two-segment snake cannot hit itself.
        match i % 4 {
            0 => s.snake_movement_input(true, false, false, false),
            1 => s.snake_movement_input(false, false, false, true),
            2 => s.snake_movement_input(false, true, false, false),
            _ => s.snake_movement_input(false, false, true, false),
        }
        let e = s.movement_tick();
        assert!(e.is_none());
        assert_eq!(s.segments.0.len(), 2);
        assert!(0 <= s.segments.0[0].x && s.segments.0[0].x <= 25);
        assert!(0 <= s.segments.0[0].y && s.segments.0[0].y <= 25);
    }
}
