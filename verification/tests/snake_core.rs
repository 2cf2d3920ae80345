use arena_core::Direction;
use arena_core::GameState;
use arena_core::Point;
use arena_core::Snake;

fn p(x: i32, y: i32) -> Point {
    Point { x, y }
}

#[test]
fn opposite_is_involutive_for_every_direction() {
    for d in [Direction::Up, Direction::Down, Direction::Left, Direction::Right] {
        assert_eq!(d.opposite().opposite(), d);
        assert_ne!(d.opposite(), d);
    }
}

#[test]
fn opposite_maps_each_direction_to_its_reverse() {
    assert_eq!(Direction::Up.opposite(), Direction::Down);
    assert_eq!(Direction::Down.opposite(), Direction::Up);
    assert_eq!(Direction::Left.opposite(), Direction::Right);
    assert_eq!(Direction::Right.opposite(), Direction::Left);
}

#[test]
fn new_snake_trails_behind_its_head() {
    let s = Snake::new(p(10, 10), Direction::Right, "#ffffff".to_string());
    assert_eq!(s.body, vec![p(10, 10), p(9, 10), p(8, 10)]);
    assert_eq!(s.direction, Direction::Right);
    assert_eq!(s.next_direction, Direction::Right);
    assert!(s.alive);
    assert_eq!(s.score, 0);
    assert_eq!(s.color, "#ffffff");

    let up = Snake::new(p(7, 7), Direction::Up, "#000000".to_string());
    assert_eq!(up.body, vec![p(7, 7), p(7, 8), p(7, 9)]);
}

#[test]
fn set_direction_ignores_instant_reversal() {
    let mut s = Snake::new(p(10, 10), Direction::Right, "#ffffff".to_string());
    s.set_direction(Direction::Left);
    assert_eq!(s.next_direction, Direction::Right);
    s.set_direction(Direction::Up);
    assert_eq!(s.next_direction, Direction::Up);
    s.move_forward();
    assert_eq!(s.direction, Direction::Up);
    s.set_direction(Direction::Down);
    assert_eq!(s.next_direction, Direction::Up);
}

#[test]
fn move_forward_shifts_the_body_by_one_cell() {
    let mut s = Snake::new(p(10, 10), Direction::Right, "#ffffff".to_string());
    let before = s.body.clone();
    s.move_forward();
    assert_eq!(s.body.len(), before.len());
    assert_eq!(s.body[0], p(11, 10));
    for i in 1..s.body.len() {
        assert_eq!(s.body[i], before[i - 1]);
    }
}

#[test]
fn grow_duplicates_the_tail_and_scores() {
    let mut s = Snake::new(p(10, 10), Direction::Right, "#ffffff".to_string());
    s.grow();
    assert_eq!(s.body, vec![p(10, 10), p(9, 10), p(8, 10), p(8, 10)]);
    assert_eq!(s.score, 10);
    s.move_forward();
    assert_eq!(s.body.len(), 4);
    assert_eq!(s.body[0], p(11, 10));
}

#[test]
fn spawn_positions_face_inward_from_the_four_edges() {
    assert_eq!(
        GameState::get_spawn_position(0, 50, 35),
        (p(5, 17), Direction::Right)
    );
    assert_eq!(
        GameState::get_spawn_position(1, 50, 35),
        (p(44, 17), Direction::Left)
    );
    assert_eq!(
        GameState::get_spawn_position(2, 50, 35),
        (p(25, 5), Direction::Down)
    );
    assert_eq!(
        GameState::get_spawn_position(3, 50, 35),
        (p(25, 29), Direction::Up)
    );
    assert_eq!(
        GameState::get_spawn_position(4, 50, 35),
        (p(5, 17), Direction::Right)
    );
}

#[test]
fn medium_bot_chases_the_first_food_item() {
    let mut state = GameState::new();
    state.food.push(p(30, 17));
    let head = p(10, 17);
    let choice = state.bot_medium_decision(&head, Direction::Right);
    assert_eq!(choice, Some(Direction::Right));

    // Food straight above: the vertical gap dominates.
    state.food[0] = p(10, 5);
    let choice = state.bot_medium_decision(&head, Direction::Right);
    assert_eq!(choice, Some(Direction::Up));
}

#[test]
fn medium_bot_detours_around_a_blocked_cell() {
    let mut state = GameState::new();
    state.food.push(p(12, 17));
    // A wall of snake directly to the right of the head.
    let blocker = arena_core::Player {
        id: "b".to_string(),
        user_id: None,
        access_token: None,
        name: "blocker".to_string(),
        snake: Snake::new(p(11, 17), Direction::Up, "#123456".to_string()),
        ready: true,
        active_power: None,
        is_bot: false,
        difficulty: None,
    };
    state.players.push(blocker);
    let head = p(10, 17);
    // Desired heading Right is occupied at (11,17); the first safe
    // non-reversing alternative in enumeration order is Right, Up, Down —
    // so Up.
    let choice = state.bot_medium_decision(&head, Direction::Right);
    assert_eq!(choice, Some(Direction::Up));
}

#[test]
fn hard_bot_never_picks_a_lethal_heading_when_a_safe_one_exists() {
    let mut state = GameState::new();
    state.food.push(p(2, 2));
    let pid = "h".to_string();
    // Head in the corner region: Left would hit the border ring.
    let head = p(1, 17);
    let choice = state.bot_hard_decision(&pid, &head, Direction::Left).unwrap();
    assert_ne!(choice, Direction::Left.opposite());
    // Stepping in the chosen direction stays strictly inside the walls.
    let next = match choice {
        Direction::Up => p(head.x, head.y - 1),
        Direction::Down => p(head.x, head.y + 1),
        Direction::Left => p(head.x - 1, head.y),
        Direction::Right => p(head.x + 1, head.y),
    };
    assert!(next.x > 0 && next.x < 49 && next.y > 0 && next.y < 34);
}

#[test]
fn easy_bot_always_returns_some_direction() {
    let mut state = GameState::new();
    state.food.push(p(30, 17));
    let head = p(10, 17);
    for _ in 0..50 {
        let d = state.bot_easy_decision(&head, Direction::Right);
        assert!(d.is_some());
        // Never the reverse of the current heading unless it is the food
        // chase, which here points Right as well.
        assert_ne!(d.unwrap(), Direction::Left);
    }
}
