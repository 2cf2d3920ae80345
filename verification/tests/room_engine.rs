use arena_core::ActivePowerUp;
use arena_core::ClientMessage;
use arena_core::Direction;
use arena_core::GamePhase;
use arena_core::GameRoom;
use arena_core::Outbound;
use arena_core::Player;
use arena_core::Point;
use arena_core::PowerUp;
use arena_core::PowerUpType;
use arena_core::RoomSettings;
use arena_core::ServerMessage;
use arena_core::Snake;

fn p(x: i32, y: i32) -> Point {
    Point { x, y }
}

fn fresh_room() -> GameRoom {
    GameRoom::new(
        "room-1".to_string(),
        "ABCDEF".to_string(),
        RoomSettings::default(),
        false,
    )
}

fn human(id: &str, snake: Snake, power: Option<ActivePowerUp>) -> Player {
    Player {
        id: id.to_string(),
        user_id: None,
        access_token: None,
        name: id.to_string(),
        snake,
        ready: true,
        active_power: power,
        is_bot: false,
        difficulty: None,
    }
}

fn snake_at(body: Vec<Point>, dir: Direction) -> Snake {
    Snake {
        body,
        direction: dir,
        next_direction: dir,
        alive: true,
        score: 0,
        color: "#ffffff".to_string(),
    }
}

fn has_game_started(events: &[Outbound]) -> bool {
    events.iter().any(|e| matches!(e, Outbound::Broadcast(ServerMessage::GameStarted)))
}

#[test]
fn scenario_two_players_ready_start_countdown_to_playing() {
    let mut room = fresh_room();
    let a = "alice".to_string();
    let b = "bob".to_string();
    let (_, timer) = room.client_action(
        &a,
        ClientMessage::Join { name: "Alice".to_string(), user_id: None, access_token: None },
    );
    assert!(!timer);
    room.client_action(
        &b,
        ClientMessage::Join { name: "Bob".to_string(), user_id: None, access_token: None },
    );
    assert_eq!(room.state.players.len(), 2);
    room.client_action(&a, ClientMessage::Ready);
    // Not everyone is ready yet: StartGame is refused, and the offender
    // alone is told so.
    let (events, timer) = room.client_action(&a, ClientMessage::StartGame);
    assert!(!timer);
    assert_eq!(events.len(), 1);
    assert!(matches!(
        &events[0],
        Outbound::Direct(to, ServerMessage::Error { message })
            if to == "alice"
                && message == "Cannot start: game must be in the lobby with all players ready"
    ));
    assert_eq!(room.state.phase, GamePhase::Lobby);

    room.client_action(&b, ClientMessage::Ready);
    let (_, timer) = room.client_action(&a, ClientMessage::StartGame);
    assert!(timer);
    assert_eq!(room.state.phase, GamePhase::Countdown);
    assert_eq!(room.state.countdown, 3);
    assert_eq!(room.state.food.len(), 3);

    // Six ticks make one countdown second.
    let mut seen = vec![room.state.countdown];
    let mut started = false;
    for _ in 0..18 {
        let (events, subs) = room.tick();
        assert!(subs.is_empty());
        if seen.last() != Some(&room.state.countdown) {
            seen.push(room.state.countdown);
        }
        if has_game_started(&events) {
            started = true;
        }
    }
    assert_eq!(seen, vec![3, 2, 1, 0]);
    assert!(started);
    assert_eq!(room.state.phase, GamePhase::Playing);
}

#[test]
fn scenario_solo_game_prespawns_ready_hard_bots() {
    let mut room = fresh_room();
    room.spawn_bot(arena_core::BotDifficulty::Hard, "bot-1".to_string());
    room.spawn_bot(arena_core::BotDifficulty::Hard, "bot-2".to_string());
    assert_eq!(room.state.players.len(), 2);
    for pl in &room.state.players {
        assert!(pl.is_bot);
        assert!(pl.ready);
        assert_eq!(pl.difficulty, Some(arena_core::BotDifficulty::Hard));
        assert_eq!(pl.name, "Hard Bot");
    }
    assert_eq!(room.state.players.iter().filter(|pl| !pl.is_bot).count(), 0);
}

#[test]
fn scenario_lone_snake_hitting_the_wall_ends_with_no_winner() {
    let mut room = fresh_room();
    room.state.phase = GamePhase::Playing;
    room.state.players.push(human(
        "solo",
        snake_at(vec![p(49, 17), p(48, 17), p(47, 17)], Direction::Right),
        None,
    ));
    let (events, subs) = room.tick();
    assert_eq!(room.state.phase, GamePhase::GameOver);
    assert!(room.state.winner.is_none());
    assert!(!room.state.players[0].snake.alive);
    assert!(subs.is_empty());
    assert!(events.iter().any(|e| matches!(
        e,
        Outbound::Broadcast(ServerMessage::GameOver { winner: None })
    )));
}

#[test]
fn scenario_disconnecting_the_last_player_resets_the_room() {
    let mut room = fresh_room();
    let a = "alice".to_string();
    room.client_action(
        &a,
        ClientMessage::Join { name: "Alice".to_string(), user_id: None, access_token: None },
    );
    room.client_action(&a, ClientMessage::Ready);
    let (_, timer) = room.client_action(&a, ClientMessage::StartGame);
    assert!(timer);
    assert!(room.game_loop_running);
    // A second start must never request a second timer.
    let (_, timer_again) = room.client_action(&a, ClientMessage::StartGame);
    assert!(!timer_again);

    let events = room.disconnect(&a);
    assert_eq!(room.state.players.len(), 0);
    assert_eq!(room.state.phase, GamePhase::Lobby);
    assert!(room.state.food.is_empty());
    assert!(room.state.power_ups.is_empty());
    assert!(room.state.winner.is_none());
    assert_eq!(room.state.countdown, 0);
    // The tick-loop guard survives the reset: the loop that was started
    // free-runs, so it must never be armed a second time.
    assert!(room.game_loop_running);
    assert!(events.iter().any(|e| matches!(
        e,
        Outbound::Broadcast(ServerMessage::PlayerLeft { .. })
    )));

    // A fresh round begins on the still-running loop: no new timer.
    room.client_action(
        &a,
        ClientMessage::Join { name: "Alice".to_string(), user_id: None, access_token: None },
    );
    room.client_action(&a, ClientMessage::Ready);
    let (_, timer) = room.client_action(&a, ClientMessage::StartGame);
    assert!(!timer);
    assert_eq!(room.state.phase, GamePhase::Countdown);
}

#[test]
fn phantom_effect_wraps_the_head_to_the_opposite_edge() {
    let mut room = fresh_room();
    room.state.phase = GamePhase::Playing;
    room.state.players.push(human(
        "ghosty",
        snake_at(vec![p(0, 17), p(1, 17), p(2, 17)], Direction::Left),
        Some(ActivePowerUp { power_type: PowerUpType::Phantom, ticks_remaining: 5 }),
    ));
    room.tick();
    let s = &room.state.players[0].snake;
    assert!(s.alive);
    assert_eq!(s.body.len(), 3);
    assert_eq!(s.body[0], p(49, 17));
    // The effect itself ticked down.
    assert_eq!(
        room.state.players[0].active_power,
        Some(ActivePowerUp { power_type: PowerUpType::Phantom, ticks_remaining: 4 })
    );
}

#[test]
fn shield_does_not_cover_walls() {
    let mut room = fresh_room();
    room.state.phase = GamePhase::Playing;
    room.state.players.push(human(
        "shielded",
        snake_at(vec![p(0, 17), p(1, 17), p(2, 17)], Direction::Left),
        Some(ActivePowerUp { power_type: PowerUpType::Shield, ticks_remaining: 20 }),
    ));
    room.tick();
    assert!(!room.state.players[0].snake.alive);
}

#[test]
fn shield_covers_collisions_and_expiry_restores_vulnerability() {
    // Player a runs into the (dead, static) body of player b.
    let mut room = fresh_room();
    room.state.phase = GamePhase::Playing;
    room.state.players.push(human(
        "a",
        snake_at(vec![p(10, 10), p(9, 10), p(8, 10)], Direction::Right),
        Some(ActivePowerUp { power_type: PowerUpType::Shield, ticks_remaining: 20 }),
    ));
    let mut wall = human(
        "b",
        snake_at(vec![p(11, 9), p(11, 10), p(11, 11)], Direction::Down),
        None,
    );
    wall.snake.alive = false;
    room.state.players.push(wall);
    room.tick();
    // Shield holder survives the cross-collision; with one snake left of
    // two players the round still ends, in the survivor's favour.
    assert!(room.state.players[0].snake.alive);
    assert_eq!(room.state.phase, GamePhase::GameOver);
    assert_eq!(room.state.winner.as_deref(), Some("a"));

    // The same crash without protection is lethal.
    let mut room = fresh_room();
    room.state.phase = GamePhase::Playing;
    room.state.players.push(human(
        "a",
        snake_at(vec![p(10, 10), p(9, 10), p(8, 10)], Direction::Right),
        None,
    ));
    let mut wall = human(
        "b",
        snake_at(vec![p(11, 9), p(11, 10), p(11, 11)], Direction::Down),
        None,
    );
    wall.snake.alive = false;
    room.state.players.push(wall);
    room.tick();
    assert!(!room.state.players[0].snake.alive);
    assert!(room.state.winner.is_none());
}

#[test]
fn self_collision_kills_the_unprotected_and_spares_the_protected() {
    // A snake curled into a hook: stepping right takes the head onto its
    // own fifth segment.
    let hook = vec![p(5, 5), p(5, 6), p(6, 6), p(6, 5), p(7, 5), p(8, 5)];

    let mut room = fresh_room();
    room.state.phase = GamePhase::Playing;
    room.state.players.push(human("bare", snake_at(hook.clone(), Direction::Right), None));
    room.tick();
    assert!(!room.state.players[0].snake.alive);

    let mut room = fresh_room();
    room.state.phase = GamePhase::Playing;
    room.state.players.push(human(
        "covered",
        snake_at(hook, Direction::Right),
        Some(ActivePowerUp { power_type: PowerUpType::Phantom, ticks_remaining: 5 }),
    ));
    room.tick();
    assert!(room.state.players[0].snake.alive);
}

#[test]
fn simultaneous_head_on_collisions_kill_both_sides() {
    // Two snakes charging at each other: after the move each head lies in
    // the other's body. The rule is order-independent, so both die and
    // nobody wins.
    let mut room = fresh_room();
    room.state.phase = GamePhase::Playing;
    room.state.players.push(human(
        "east",
        snake_at(vec![p(10, 10), p(9, 10), p(8, 10)], Direction::Right),
        None,
    ));
    room.state.players.push(human(
        "west",
        snake_at(vec![p(11, 10), p(12, 10), p(13, 10)], Direction::Left),
        None,
    ));
    room.tick();
    assert!(!room.state.players[0].snake.alive);
    assert!(!room.state.players[1].snake.alive);
    assert_eq!(room.state.phase, GamePhase::GameOver);
    assert!(room.state.winner.is_none());
}

#[test]
fn eating_food_grows_scores_and_restocks() {
    let mut room = fresh_room();
    room.state.phase = GamePhase::Playing;
    room.state.players.push(human(
        "eater",
        snake_at(vec![p(10, 10), p(9, 10), p(8, 10)], Direction::Right),
        None,
    ));
    room.state.food = vec![p(11, 10), p(30, 30), p(40, 20)];
    room.tick();
    let s = &room.state.players[0].snake;
    assert_eq!(s.score, 10);
    assert_eq!(s.body.len(), 4);
    // The eaten item was removed and a replacement spawned: the stock is
    // back at its fixed size (the grid is nowhere near saturated here).
    assert_eq!(room.state.food.len(), 3);
    assert!(room.state.food.contains(&p(30, 30)));
    assert!(room.state.food.contains(&p(40, 20)));
}

#[test]
fn grow_powerup_adds_segments_at_once_and_timed_ones_install() {
    let mut room = fresh_room();
    room.state.phase = GamePhase::Playing;
    room.state.players.push(human(
        "collector",
        snake_at(vec![p(10, 10), p(9, 10), p(8, 10)], Direction::Right),
        None,
    ));
    room.state.power_ups.push(PowerUp {
        id: 7,
        position: p(11, 10),
        power_type: PowerUpType::Grow,
    });
    room.tick();
    let s = &room.state.players[0].snake;
    assert_eq!(s.body.len(), 8);
    assert_eq!(s.score, 50);
    assert!(room.state.power_ups.is_empty());

    let mut room = fresh_room();
    room.state.phase = GamePhase::Playing;
    room.state.players.push(human(
        "collector",
        snake_at(vec![p(10, 10), p(9, 10), p(8, 10)], Direction::Right),
        None,
    ));
    room.state.power_ups.push(PowerUp {
        id: 8,
        position: p(11, 10),
        power_type: PowerUpType::Shield,
    });
    room.tick();
    // Installed with its full duration, then one tick already elapsed.
    assert_eq!(
        room.state.players[0].active_power,
        Some(ActivePowerUp { power_type: PowerUpType::Shield, ticks_remaining: 19 })
    );
    assert!(room.state.power_ups.is_empty());
}

#[test]
fn joining_a_full_or_running_room_is_refused() {
    let mut room = fresh_room();
    for i in 0..4 {
        room.client_action(
            &format!("p{}", i),
            ClientMessage::Join { name: format!("P{}", i), user_id: None, access_token: None },
        );
    }
    let (events, _) = room.client_action(
        &"late".to_string(),
        ClientMessage::Join { name: "Late".to_string(), user_id: None, access_token: None },
    );
    assert_eq!(room.state.players.len(), 4);
    assert!(matches!(
        &events[0],
        Outbound::Direct(to, ServerMessage::Error { message })
            if to == "late" && message == "Room is full (max 4 players)"
    ));

    let mut room = fresh_room();
    room.client_action(
        &"a".to_string(),
        ClientMessage::Join { name: "A".to_string(), user_id: None, access_token: None },
    );
    room.state.phase = GamePhase::Playing;
    let (events, _) = room.client_action(
        &"b".to_string(),
        ClientMessage::Join { name: "B".to_string(), user_id: None, access_token: None },
    );
    assert_eq!(room.state.players.len(), 1);
    assert!(matches!(
        &events[0],
        Outbound::Direct(_, ServerMessage::Error { message })
            if message == "Game already in progress"
    ));
}

#[test]
fn direction_requests_flow_through_the_anti_reversal_rule() {
    let mut room = fresh_room();
    let a = "a".to_string();
    room.client_action(
        &a,
        ClientMessage::Join { name: "A".to_string(), user_id: None, access_token: None },
    );
    // Slot 0 spawns heading Right; the reverse is silently ignored.
    room.client_action(&a, ClientMessage::Direction { direction: Direction::Left });
    assert_eq!(room.state.players[0].snake.next_direction, Direction::Right);
    room.client_action(&a, ClientMessage::Direction { direction: Direction::Up });
    assert_eq!(room.state.players[0].snake.next_direction, Direction::Up);
}

#[test]
fn restart_returns_to_lobby_and_clears_ready_flags() {
    let mut room = fresh_room();
    room.state.phase = GamePhase::GameOver;
    room.state.players.push(human(
        "a",
        snake_at(vec![p(10, 10), p(9, 10), p(8, 10)], Direction::Right),
        None,
    ));
    let (events, timer) = room.client_action(&"a".to_string(), ClientMessage::Restart);
    assert!(!timer);
    assert_eq!(room.state.phase, GamePhase::Lobby);
    assert!(!room.state.players[0].ready);
    assert_eq!(events.len(), 1);

    // Restart outside GameOver leaves the state alone and tells only the
    // requester off.
    let (events, _) = room.client_action(&"a".to_string(), ClientMessage::Restart);
    assert_eq!(events.len(), 1);
    assert!(matches!(
        &events[0],
        Outbound::Direct(to, ServerMessage::Error { message })
            if to == "a" && message == "No finished game to restart"
    ));
    assert_eq!(room.state.phase, GamePhase::Lobby);
}

#[test]
fn game_over_reports_scores_for_linked_accounts_only() {
    let mut room = fresh_room();
    room.state.phase = GamePhase::Playing;
    let mut linked = human(
        "linked",
        snake_at(vec![p(49, 17), p(48, 17), p(47, 17)], Direction::Right),
        None,
    );
    linked.user_id = Some("user-9".to_string());
    linked.access_token = Some("test-access-token".to_string());
    linked.snake.score = 40;
    room.state.players.push(linked);
    let mut anon = human(
        "anon",
        snake_at(vec![p(10, 10), p(9, 10), p(8, 10)], Direction::Right),
        None,
    );
    anon.snake.alive = false;
    room.state.players.push(anon);
    let (_, subs) = room.tick();
    // The lone linked player crashed into the wall; the round is over and
    // exactly one score record is owed.
    assert_eq!(room.state.phase, GamePhase::GameOver);
    assert_eq!(subs.len(), 1);
    assert_eq!(subs[0].user_id, "user-9");
    assert_eq!(subs[0].score, 40);
}

#[test]
fn food_count_transiently_drops_when_the_grid_is_saturated() {
    // The smallest legal grid, with every interior cell under some snake
    // segment: after a consumption the bounded respawn probes all land on
    // occupied cells, so the stock drops until the board clears up.
    let mut room = fresh_room();
    room.state.grid_width = 12;
    room.state.grid_height = 12;
    room.state.phase = GamePhase::Playing;

    let mut eater = human(
        "eater",
        snake_at(vec![p(9, 5), p(8, 5), p(7, 5)], Direction::Right),
        // Its head will land inside the blocking body: only protection
        // lets it live to eat.
        Some(ActivePowerUp { power_type: PowerUpType::Shield, ticks_remaining: 20 }),
    );
    eater.snake.score = 0;
    room.state.players.push(eater);

    let mut cover = Vec::new();
    for x in 1..=10 {
        for y in 1..=10 {
            cover.push(p(x, y));
        }
    }
    let mut blocker = human("blocker", snake_at(cover, Direction::Up), None);
    blocker.snake.alive = false;
    room.state.players.push(blocker);

    room.state.food = vec![p(10, 5)];
    room.tick();
    let s = &room.state.players[0].snake;
    assert!(s.alive);
    assert_eq!(s.score, 10);
    assert_eq!(room.state.food.len(), 0);
}

#[test]
fn lobby_and_game_over_ticks_are_no_ops() {
    let mut room = fresh_room();
    let (events, subs) = room.tick();
    assert!(events.is_empty());
    assert!(subs.is_empty());
    assert_eq!(room.state.phase, GamePhase::Lobby);

    room.state.phase = GamePhase::GameOver;
    let (events, subs) = room.tick();
    assert!(events.is_empty());
    assert!(subs.is_empty());
    assert_eq!(room.state.phase, GamePhase::GameOver);
}

#[test]
fn connect_welcomes_the_session_and_hands_it_a_snapshot() {
    let room = fresh_room();
    let events = room.connect(&"sess-1".to_string());
    assert_eq!(events.len(), 2);
    assert!(matches!(
        &events[0],
        Outbound::Direct(to, ServerMessage::Welcome { player_id })
            if to == "sess-1" && player_id == "sess-1"
    ));
    assert!(matches!(
        &events[1],
        Outbound::Direct(to, ServerMessage::GameState(g))
            if to == "sess-1" && g.phase == GamePhase::Lobby
    ));
}
