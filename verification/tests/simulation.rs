use snake_core::grid::Direction;
use snake_core::grid::Position;
use snake_core::state::GameState;
use snake_core::state::TickOutcome;

fn pos(x: i32, y: i32) -> Position {
    Position { x, y }
}

fn state_of(
    segments: Vec<Position>,
    direction: Direction,
    buffer: Direction,
    food: Option<Position>,
) -> GameState {
    GameState::from_parts(10, 10, segments, direction, buffer, food)
        .expect("the parts describe a well-formed state")
}

#[test]
fn opposite_is_involution_and_fixed_point_free() {
    let dirs = [
        Direction::Left,
        Direction::Up,
        Direction::Right,
        Direction::Down,
    ];
    for d in dirs {
        assert_eq!(d.opposite().opposite(), d);
        assert_ne!(d.opposite(), d);
    }
    assert_eq!(Direction::Left.opposite(), Direction::Right);
    assert_eq!(Direction::Up.opposite(), Direction::Down);
}

#[test]
fn input_priority_left_down_up_right() {
    // heading Right so that Left is the rejected reverse, Down/Up are free
    let mut s = state_of(
        vec![pos(5, 5), pos(4, 5)],
        Direction::Right,
        Direction::Right,
        None,
    );
    s.snake_movement_input(false, true, true, true);
    assert_eq!(s.buffer_direction, Direction::Down);
    s.snake_movement_input(false, false, true, true);
    assert_eq!(s.buffer_direction, Direction::Up);
    s.snake_movement_input(false, false, false, true);
    assert_eq!(s.buffer_direction, Direction::Right);
    // all four pressed: Left wins the tie-break but is the reverse of Right,
    // so the previous buffered value is retained
    s.snake_movement_input(true, true, true, true);
    assert_eq!(s.buffer_direction, Direction::Right);
    // heading Up: Left wins the tie-break and is accepted
    let mut t = state_of(
        vec![pos(5, 5), pos(5, 4)],
        Direction::Up,
        Direction::Up,
        None,
    );
    t.snake_movement_input(true, true, true, true);
    assert_eq!(t.buffer_direction, Direction::Left);
}

#[test]
fn no_key_pressed_keeps_current_heading() {
    let mut s = state_of(
        vec![pos(5, 5), pos(5, 4)],
        Direction::Up,
        Direction::Left,
        None,
    );
    s.snake_movement_input(false, false, false, false);
    assert_eq!(s.buffer_direction, Direction::Up);
}

#[test]
fn opposite_direction_is_rejected() {
    // heading Up, Down requested: the buffer keeps its prior value
    let mut s = state_of(
        vec![pos(5, 5), pos(5, 4)],
        Direction::Up,
        Direction::Up,
        None,
    );
    s.snake_movement_input(false, true, false, false);
    assert_eq!(s.buffer_direction, Direction::Up);
    // the rejection is judged against the current heading, not the buffer:
    // with Left already buffered, Down is still rejected and Left survives
    let mut t = state_of(
        vec![pos(5, 5), pos(5, 4)],
        Direction::Up,
        Direction::Left,
        None,
    );
    t.snake_movement_input(false, true, false, false);
    assert_eq!(t.buffer_direction, Direction::Left);
}

#[test]
fn single_step_displacement_all_headings() {
    let cases = [
        (Direction::Left, pos(6, 5), pos(4, 5)),
        (Direction::Right, pos(4, 5), pos(6, 5)),
        (Direction::Up, pos(5, 4), pos(5, 6)),
        (Direction::Down, pos(5, 6), pos(5, 4)),
    ];
    for (d, behind, expected) in cases {
        let mut s = state_of(vec![pos(5, 5), behind], d, d, None);
        let outcome = s.advance();
        assert_eq!(outcome, TickOutcome::Moved);
        assert_eq!(s.segments[0], expected);
    }
}

#[test]
fn tick_commits_buffered_heading() {
    let mut s = state_of(
        vec![pos(5, 5), pos(5, 4)],
        Direction::Up,
        Direction::Left,
        None,
    );
    let outcome = s.advance();
    assert_eq!(outcome, TickOutcome::Moved);
    assert_eq!(s.direction, Direction::Left);
    assert_eq!(s.buffer_direction, Direction::Left);
    assert_eq!(s.segments[0], pos(4, 5));
}

#[test]
fn follow_invariant_after_tick() {
    let before = vec![pos(5, 5), pos(5, 4), pos(4, 4), pos(3, 4)];
    let mut s = state_of(before.clone(), Direction::Up, Direction::Up, None);
    let outcome = s.advance();
    assert_eq!(outcome, TickOutcome::Moved);
    assert_eq!(s.segments.len(), before.len());
    for i in 1..before.len() {
        assert_eq!(s.segments[i], before[i - 1]);
    }
    assert_eq!(s.segments, vec![pos(5, 6), pos(5, 5), pos(5, 4), pos(4, 4)]);
    assert_eq!(s.last_tail_position, Some(pos(3, 4)));
}

#[test]
fn wall_collision_triggers_reset() {
    // at the left edge heading outward: one tick dies and resets
    let mut s = state_of(
        vec![pos(0, 5), pos(1, 5)],
        Direction::Left,
        Direction::Left,
        None,
    );
    let outcome = s.advance();
    assert_eq!(outcome, TickOutcome::Died);
    assert_eq!(s.segments, vec![pos(3, 3), pos(3, 2)]);
    assert_eq!(s.direction, Direction::Up);
    assert_eq!(s.buffer_direction, Direction::Up);
    assert_eq!(s.food, None);
}

#[test]
fn wall_collision_every_edge() {
    let cases = [
        (vec![pos(0, 5), pos(1, 5)], Direction::Left),
        (vec![pos(9, 5), pos(8, 5)], Direction::Right),
        (vec![pos(5, 9), pos(5, 8)], Direction::Up),
        (vec![pos(5, 0), pos(5, 1)], Direction::Down),
    ];
    for (segments, d) in cases {
        let mut s = state_of(segments, d, d, None);
        assert_eq!(s.advance(), TickOutcome::Died);
        assert_eq!(s.segments.len(), 2);
    }
}

#[test]
fn self_collision_triggers_game_over() {
    // a length-4 snake curled so that turning left moves the head onto a
    // cell the body occupied before this tick's move
    let mut s = state_of(
        vec![pos(5, 5), pos(5, 4), pos(4, 4), pos(4, 5)],
        Direction::Up,
        Direction::Up,
        None,
    );
    s.snake_movement_input(true, false, false, false);
    assert_eq!(s.buffer_direction, Direction::Left);
    let outcome = s.advance();
    assert_eq!(outcome, TickOutcome::Died);
    assert_eq!(s.segments, vec![pos(3, 3), pos(3, 2)]);
}

#[test]
fn collision_is_judged_against_pre_move_cells() {
    // the fatal cell (4,5) is the tail, which this very tick would vacate;
    // death is judged against the pre-move snapshot, so the tick still dies
    let mut s = state_of(
        vec![pos(5, 5), pos(5, 4), pos(4, 4), pos(4, 5)],
        Direction::Up,
        Direction::Left,
        None,
    );
    assert_eq!(s.advance(), TickOutcome::Died);
}

#[test]
fn growth_consumes_food_and_appends_at_old_tail() {
    let mut s = state_of(
        vec![pos(3, 3), pos(3, 2)],
        Direction::Up,
        Direction::Up,
        Some(pos(3, 4)),
    );
    let outcome = s.advance();
    assert_eq!(outcome, TickOutcome::Ate);
    assert_eq!(s.food, None);
    assert_eq!(s.segments.len(), 3);
    assert_eq!(s.segments, vec![pos(3, 4), pos(3, 3), pos(3, 2)]);
    // the new tail sits at the tail cell recorded before this tick's move
    assert_eq!(s.segments[2], pos(3, 2));
    assert_eq!(s.last_tail_position, Some(pos(3, 2)));
}

#[test]
fn no_growth_without_food() {
    let mut s = state_of(vec![pos(3, 3), pos(3, 2)], Direction::Up, Direction::Up, None);
    let outcome = s.advance();
    assert_eq!(outcome, TickOutcome::Moved);
    assert_eq!(s.segments.len(), 2);
    assert_eq!(s.food, None);
}

#[test]
fn no_growth_when_food_is_elsewhere() {
    let mut s = state_of(
        vec![pos(3, 3), pos(3, 2)],
        Direction::Up,
        Direction::Up,
        Some(pos(9, 9)),
    );
    let outcome = s.advance();
    assert_eq!(outcome, TickOutcome::Moved);
    assert_eq!(s.segments.len(), 2);
    assert_eq!(s.food, Some(pos(9, 9)));
}

#[test]
fn death_wins_over_eating() {
    // food sits exactly on the fatal cell: the tick dies, nothing is eaten,
    // the reset despawns the food
    let mut s = state_of(
        vec![pos(5, 5), pos(5, 4), pos(4, 4), pos(4, 5)],
        Direction::Up,
        Direction::Left,
        Some(pos(4, 5)),
    );
    let outcome = s.advance();
    assert_eq!(outcome, TickOutcome::Died);
    assert_eq!(s.food, None);
    assert_eq!(s.segments.len(), 2);
}

#[test]
fn consecutive_game_overs_give_identical_start_state() {
    let mut s = state_of(
        vec![pos(7, 7), pos(7, 6), pos(7, 5)],
        Direction::Right,
        Direction::Right,
        Some(pos(1, 1)),
    );
    s.game_over(true);
    let first = (
        s.segments.clone(),
        s.direction,
        s.buffer_direction,
        s.food,
    );
    s.game_over(true);
    let second = (
        s.segments.clone(),
        s.direction,
        s.buffer_direction,
        s.food,
    );
    assert_eq!(first, second);
    assert_eq!(second.0, vec![pos(3, 3), pos(3, 2)]);
    assert_eq!(second.1, Direction::Up);
    assert_eq!(second.2, Direction::Up);
    assert_eq!(second.3, None);
}

#[test]
fn game_over_without_signal_changes_nothing() {
    let before = vec![pos(7, 7), pos(7, 6), pos(7, 5)];
    let mut s = state_of(before.clone(), Direction::Right, Direction::Right, Some(pos(1, 1)));
    s.game_over(false);
    assert_eq!(s.segments, before);
    assert_eq!(s.direction, Direction::Right);
    assert_eq!(s.food, Some(pos(1, 1)));
}

#[test]
fn snake_eating_only_on_exact_head_cell() {
    let mut s = state_of(
        vec![pos(5, 5), pos(5, 4)],
        Direction::Up,
        Direction::Up,
        Some(pos(5, 5)),
    );
    assert!(s.snake_eating());
    assert_eq!(s.food, None);
    let mut t = state_of(
        vec![pos(5, 5), pos(5, 4)],
        Direction::Up,
        Direction::Up,
        Some(pos(5, 4)),
    );
    assert!(!t.snake_eating());
    assert_eq!(t.food, Some(pos(5, 4)));
}

#[test]
fn snake_growth_appends_recorded_tail() {
    let mut s = state_of(vec![pos(5, 5), pos(5, 4)], Direction::Up, Direction::Up, None);
    let died = s.snake_movement();
    assert!(!died);
    assert_eq!(s.last_tail_position, Some(pos(5, 4)));
    s.snake_growth(false);
    assert_eq!(s.segments.len(), 2);
    s.snake_growth(true);
    assert_eq!(s.segments.len(), 3);
    assert_eq!(s.segments[2], pos(5, 4));
}

#[test]
fn new_rejects_malformed_arenas() {
    assert!(GameState::new(10, 10).is_some());
    assert!(GameState::new(4, 4).is_some());
    assert!(GameState::new(0, 10).is_none());
    assert!(GameState::new(10, 0).is_none());
    assert!(GameState::new(3, 10).is_none());
    assert!(GameState::new(10, 3).is_none());
    assert!(GameState::new(0x8000_0000, 10).is_none());
}

#[test]
fn new_starts_in_canonical_state() {
    let s = GameState::new(10, 10).unwrap();
    assert_eq!(s.width, 10);
    assert_eq!(s.height, 10);
    assert_eq!(s.segments, vec![pos(3, 3), pos(3, 2)]);
    assert_eq!(s.direction, Direction::Up);
    assert_eq!(s.buffer_direction, Direction::Up);
    assert_eq!(s.food, None);
    assert_eq!(s.last_tail_position, None);
}

#[test]
fn from_parts_rejects_ill_formed_states() {
    // snake shorter than the start length
    assert!(GameState::from_parts(10, 10, vec![pos(3, 3)], Direction::Up, Direction::Up, None)
        .is_none());
    // a segment off the arena
    assert!(GameState::from_parts(
        10,
        10,
        vec![pos(3, 3), pos(10, 3)],
        Direction::Up,
        Direction::Up,
        None
    )
    .is_none());
    // food off the arena
    assert!(GameState::from_parts(
        10,
        10,
        vec![pos(3, 3), pos(3, 2)],
        Direction::Up,
        Direction::Up,
        Some(pos(-1, 0))
    )
    .is_none());
    // a well-formed state is accepted as given
    let s = GameState::from_parts(
        10,
        10,
        vec![pos(3, 3), pos(3, 2)],
        Direction::Down,
        Direction::Left,
        Some(pos(9, 9)),
    )
    .unwrap();
    assert_eq!(s.direction, Direction::Down);
    assert_eq!(s.buffer_direction, Direction::Left);
    assert_eq!(s.food, Some(pos(9, 9)));
}

#[test]
fn length_never_decreases_within_a_life() {
    let mut s = GameState::new(10, 10).unwrap();
    let mut len = s.segments.len();
    for _ in 0..4 {
        // steer in a small clockwise box so that the snake survives
        for d in [
            (false, false, false, true),
            (false, true, false, false),
            (true, false, false, false),
            (false, false, true, false),
        ] {
            s.snake_movement_input(d.0, d.1, d.2, d.3);
            let outcome = s.advance();
            assert_ne!(outcome, TickOutcome::Died);
            assert!(s.segments.len() >= len);
            len = s.segments.len();
        }
    }
}
