use snake_game::food::{gen_all_positions, Food};
use snake_game::game::GameState;
use snake_game::grid::Position;
use snake_game::snake::{
    Direction, KeyInput, LastInputDirection, LastTailPosition, SnakeHead, SnakeSegments,
};

fn no_keys() -> KeyInput {
    KeyInput::default()
}

fn state(
    direction: Direction,
    moved: bool,
    chain: Vec<Position>,
    foods: Vec<Position>,
) -> GameState {
    GameState {
        head: SnakeHead { direction, moved },
        segments: SnakeSegments(chain),
        foods: foods.into_iter().map(|position| Food { position }).collect(),
        last_tail_position: LastTailPosition(None),
        last_input_direction: LastInputDirection(None),
        growth_signal: false,
        game_over_signal: false,
    }
}

fn p(x: i32, y: i32) -> Position {
    Position { x, y }
}

#[test]
fn opposite_is_involutive() {
    for d in [Direction::Up, Direction::Down, Direction::Left, Direction::Right] {
        assert_eq!(d.opposite().opposite(), d);
    }
    assert_eq!(Direction::Up.opposite(), Direction::Down);
    assert_eq!(Direction::Left.opposite(), Direction::Right);
}

#[test]
fn start_state_is_canonical() {
    let s = GameState::new();
    assert_eq!(s.segments.0, vec![p(3, 3), p(3, 2)]);
    assert_eq!(s.head.direction, Direction::Up);
    assert!(!s.head.moved);
    assert!(s.foods.is_empty());
    assert!(s.last_tail_position.0.is_none());
    assert!(!s.growth_signal);
    assert!(!s.game_over_signal);
}

#[test]
fn one_tick_moves_head_and_tail() {
    let mut s = GameState::new();
    s.frame(no_keys(), true);
    assert_eq!(s.segments.0, vec![p(3, 4), p(3, 3)]);
    assert_eq!(s.last_tail_position.0, Some(p(3, 2)));
    assert!(!s.game_over_signal);
    assert!(!s.growth_signal);
}

#[test]
fn frame_without_tick_leaves_positions() {
    let mut s = GameState::new();
    s.frame(no_keys(), false);
    assert_eq!(s.segments.0, vec![p(3, 3), p(3, 2)]);
    assert!(s.last_tail_position.0.is_none());
}

#[test]
fn input_priority_prefers_left() {
    let mut s = GameState::new();
    let keys = KeyInput {
        left_primary: true,
        up_primary: true,
        ..KeyInput::default()
    };
    s.snake_movement_input(keys);
    assert_eq!(s.last_input_direction.0, Some(Direction::Left));
}

#[test]
fn input_alternate_keys_map_to_same_direction() {
    let mut s = GameState::new();
    let keys = KeyInput {
        right_alt: true,
        ..KeyInput::default()
    };
    s.snake_movement_input(keys);
    assert_eq!(s.last_input_direction.0, Some(Direction::Right));
}

#[test]
fn input_falls_back_to_current_direction() {
    let mut s = GameState::new();
    s.head.direction = Direction::Right;
    s.snake_movement_input(no_keys());
    assert_eq!(s.last_input_direction.0, Some(Direction::Right));
}

#[test]
fn direction_change_needs_moved_flag() {
    let mut s = GameState::new();
    s.last_input_direction = LastInputDirection(Some(Direction::Left));
    s.head.moved = false;
    s.snake_direction();
    assert_eq!(s.head.direction, Direction::Up);

    s.head.moved = true;
    s.snake_direction();
    assert_eq!(s.head.direction, Direction::Left);
    assert!(!s.head.moved);
}

#[test]
fn reversal_is_rejected() {
    let mut s = GameState::new();
    s.head.moved = true;
    s.last_input_direction = LastInputDirection(Some(Direction::Down));
    s.snake_direction();
    assert_eq!(s.head.direction, Direction::Up);
    assert!(s.head.moved);
}

#[test]
fn body_follows_the_leader() {
    let mut s = state(
        Direction::Right,
        true,
        vec![p(4, 4), p(3, 4), p(3, 3), p(3, 2)],
        vec![],
    );
    s.snake_movement();
    assert_eq!(s.segments.0, vec![p(5, 4), p(4, 4), p(3, 4), p(3, 3)]);
    assert_eq!(s.last_tail_position.0, Some(p(3, 2)));
    assert!(!s.game_over_signal);
    assert!(s.head.moved);
}

#[test]
fn eating_grows_at_old_tail() {
    let mut s = GameState::new();
    s.foods.push(Food { position: p(3, 4) });
    s.frame(no_keys(), true);
    assert!(s.foods.is_empty());
    assert_eq!(s.segments.0, vec![p(3, 4), p(3, 3), p(3, 2)]);
    assert!(!s.growth_signal);
}

#[test]
fn overlapping_foods_both_eaten_single_growth() {
    let mut s = GameState::new();
    s.foods.push(Food { position: p(3, 4) });
    s.foods.push(Food { position: p(3, 4) });
    s.foods.push(Food { position: p(0, 0) });
    s.frame(no_keys(), true);
    assert_eq!(s.foods, vec![Food { position: p(0, 0) }]);
    assert_eq!(s.segments.0.len(), 3);
}

#[test]
fn growth_without_recorded_tail_is_a_noop() {
    let mut s = GameState::new();
    s.growth_signal = true;
    s.snake_growth();
    assert_eq!(s.segments.0.len(), 2);
    assert!(!s.growth_signal);
}

#[test]
fn head_may_sit_on_the_boundary_line() {
    // The wall check is against the dimension itself, so x == width is
    // still accepted without a game-over signal.
    let mut s = state(Direction::Right, true, vec![p(9, 3), p(8, 3)], vec![]);
    s.frame(no_keys(), true);
    assert_eq!(s.segments.0, vec![p(10, 3), p(9, 3)]);
    assert!(!s.game_over_signal);
}

#[test]
fn wall_breach_resets_same_frame() {
    let mut s = state(Direction::Right, true, vec![p(10, 3), p(9, 3)], vec![]);
    s.foods.push(Food { position: p(7, 7) });
    s.frame(no_keys(), true);
    assert_eq!(s.segments.0, vec![p(3, 3), p(3, 2)]);
    assert_eq!(s.head.direction, Direction::Up);
    assert!(!s.head.moved);
    assert!(s.foods.is_empty());
    assert!(!s.game_over_signal);
}

#[test]
fn self_collision_resets_same_frame() {
    // The head steps into a cell a body segment occupied before the
    // tick, which counts as a self-collision against the snapshot.
    let mut s = state(
        Direction::Right,
        true,
        vec![p(4, 4), p(4, 3), p(5, 3), p(5, 4)],
        vec![],
    );
    s.frame(no_keys(), true);
    assert_eq!(s.segments.0, vec![p(3, 3), p(3, 2)]);
    assert!(!s.game_over_signal);
}

#[test]
fn movement_alone_keeps_moving_into_collision() {
    // Collision is advisory: the movement tick itself still carries the
    // chain past the wall and only raises the signal.
    let mut s = state(Direction::Left, true, vec![p(-1, 0), p(0, 0)], vec![]);
    s.snake_movement();
    assert_eq!(s.segments.0, vec![p(-2, 0), p(-1, 0)]);
    assert!(s.game_over_signal);
}

#[test]
fn all_positions_enumerate_the_arena() {
    let cells = gen_all_positions();
    assert_eq!(cells.len(), 100);
    assert_eq!(cells[0], p(0, 0));
    assert_eq!(cells[99], p(9, 9));
    assert!(cells.contains(&p(5, 7)));
    assert!(!cells.contains(&p(10, 0)));
}

#[test]
fn spawner_adds_food_on_a_free_cell() {
    let mut s = GameState::new();
    s.spawn_food();
    assert_eq!(s.foods.len(), 1);
    let q = s.foods[0].position;
    assert!((0..10).contains(&q.x) && (0..10).contains(&q.y));
    assert!(!s.segments.0.contains(&q));
}

#[test]
fn spawner_twice_leaves_two_foods() {
    let mut s = GameState::new();
    s.spawn_food();
    s.spawn_food();
    assert_eq!(s.foods.len(), 2);
}

#[test]
fn spawner_targets_the_single_free_cell() {
    // Fill every arena cell but one with chain members: the spawner has
    // no choice left, so the food must land exactly there.
    let mut chain = Vec::new();
    for x in 0..10 {
        for y in 0..10 {
            if (x, y) != (6, 6) {
                chain.push(p(x, y));
            }
        }
    }
    let mut s = state(Direction::Up, false, chain, vec![]);
    s.spawn_food();
    assert_eq!(s.foods.len(), 1);
    assert_eq!(s.foods[0].position, p(6, 6));
}

#[test]
fn spawner_skips_a_fully_occupied_arena() {
    let mut chain = Vec::new();
    for x in 0..10 {
        for y in 0..10 {
            chain.push(p(x, y));
        }
    }
    let mut s = state(Direction::Up, false, chain, vec![]);
    s.spawn_food();
    assert!(s.foods.is_empty());
    assert!(!s.game_over_signal);
}

#[test]
fn chain_length_never_decreases_without_reset() {
    let mut s = GameState::new();
    let mut len = s.segments.0.len();
    for i in 0..8 {
        if i % 3 == 0 {
            s.spawn_food();
        }
        s.frame(no_keys(), i % 2 == 0);
        let new_len = s.segments.0.len();
        assert!(new_len >= len || new_len == 2);
        len = new_len;
    }
}
