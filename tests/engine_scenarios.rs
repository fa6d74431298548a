use datspulse_sync::api::{
    ApiAnt, ApiArenaResponse, ApiEnemy, ApiFood, ApiFoodOnMap, ApiLogMessage, ApiMoveResponse,
    ApiRegistrationResponse, ApiTile,
};
use datspulse_sync::backoff::BASE_BACKOFF_MS;
use datspulse_sync::engine::{Outcome, Phase, SyncEngine, LOBBY_RETRY_MS};
use datspulse_sync::pending::OpKind;
use datspulse_sync::transport::{ServerConfig, SyncError};
use datspulse_sync::types::{ApiHex, HexCoord};

fn config() -> ServerConfig {
    ServerConfig {
        url: "https://games.example/api/".to_string(),
        token: "SECRET-REDACTED".to_string(),
        tick_rate_ms: 1000,
        auto_reconnect: true,
    }
}

fn ant(id: &str, q: i32, r: i32) -> ApiAnt {
    ApiAnt {
        id: id.to_string(),
        ant_type: 0,
        q,
        r,
        health: 100,
        food: ApiFood { amount: 0, food_type: 1 },
        last_move: vec![],
        current_move: vec![],
        last_attack: None,
        last_enemy_ant: None,
    }
}

fn arena(turn_no: i32, ants: Vec<ApiAnt>) -> ApiArenaResponse {
    ApiArenaResponse {
        ants,
        enemies: vec![],
        food: vec![],
        home: vec![ApiHex { q: 0, r: 0 }],
        map: vec![],
        next_turn_in_ms: 1500,
        score: 7,
        spot: ApiHex { q: 0, r: 0 },
        turn_no,
    }
}

fn registration(realm: &str, name: &str, lobby: i32) -> ApiRegistrationResponse {
    ApiRegistrationResponse {
        lobby_ends_in: lobby,
        name: name.to_string(),
        next_turn_ms: 0,
        realm: realm.to_string(),
    }
}

fn refused() -> SyncError {
    SyncError::Transport("error sending request: connection refused".to_string())
}

/// Drives a fresh engine until it is registered.
fn active_engine() -> SyncEngine {
    let mut e = SyncEngine::new(config());
    let plan = e.server_tick(BASE_BACKOFF_MS);
    let id = plan.register.expect("a registration is due");
    let o = e.handle_registration_result(id, Ok(registration("r1", "bot1", 120)));
    assert!(matches!(o, Outcome::Registered));
    e
}

#[test]
fn two_refused_registrations_escalate_backoff() {
    let mut e = SyncEngine::new(config());
    assert_eq!(e.ticker.phase, Phase::Idle);
    assert_eq!(e.ticker.registration_timer.duration_ms, 2000);
    assert!(e.server_tick(1999).register.is_none());
    let first = e.server_tick(1).register.expect("first attempt after 2.0 s");
    assert_eq!(e.ticker.phase, Phase::Registering);
    assert!(matches!(e.handle_registration_result(first, Err(refused())), Outcome::RegistrationFailed));
    assert_eq!(e.ticker.backoff.attempts, 1);
    assert_eq!(e.ticker.registration_timer.duration_ms, 3000);
    assert!(e.server_tick(2999).register.is_none());
    let second = e.server_tick(1).register.expect("second attempt after 3.0 s");
    assert!(matches!(e.handle_registration_result(second, Err(refused())), Outcome::RegistrationFailed));
    assert_eq!(e.ticker.backoff.attempts, 2);
    assert_eq!(e.ticker.backoff.interval_ms, 4500);
    assert!(!e.connection.connected);
    assert!(e.connection.connection_message.starts_with("Registration failed: "));
    assert!(e.connection.last_connection_attempt.is_some());
}

#[test]
fn successful_registration_connects() {
    let mut e = SyncEngine::new(config());
    let id = e.server_tick(2000).register.unwrap();
    e.handle_registration_result(id, Err(refused()));
    let id = e.server_tick(3000).register.unwrap();
    let o = e.handle_registration_result(id, Ok(registration("r1", "bot1", 120)));
    assert!(matches!(o, Outcome::Registered));
    assert!(e.connection.connected);
    assert!(e.connection.connection_message.contains("r1"));
    assert!(e.connection.connection_message.contains("bot1"));
    assert_eq!(e.connection.connection_message, "Registered successfully: bot1 (r1)");
    assert_eq!(e.ticker.backoff.interval_ms, 2000);
    assert_eq!(e.ticker.backoff.attempts, 0);
    assert_eq!(e.ticker.phase, Phase::Active);
    assert!(e.client.is_registered());
    assert_eq!(e.client.get_registration_data().unwrap().lobby_ends_in, 120);
}

#[test]
fn lobby_answer_waits_for_next_round() {
    let mut e = SyncEngine::new(config());
    let id = e.server_tick(2000).register.unwrap();
    e.handle_registration_result(id, Err(refused()));
    assert_eq!(e.ticker.backoff.attempts, 1);
    let id = e.server_tick(3000).register.unwrap();
    let err = SyncError::Protocol {
        status: 400,
        status_text: "400 Bad Request".to_string(),
        body: "{\"error\":\"no active game, next rounds: [100,200]\"}".to_string(),
    };
    let o = e.handle_registration_result(id, Err(err));
    assert!(matches!(o, Outcome::WaitingForLobby));
    assert_eq!(e.ticker.phase, Phase::WaitingForLobby);
    assert_eq!(e.connection.connection_message, "Next round: 100,200");
    assert_eq!(e.ticker.backoff.attempts, 1);
    assert_eq!(e.ticker.backoff.interval_ms, BASE_BACKOFF_MS);
    assert!(!e.connection.connected);
    // the coarse lobby timer decides the next attempt
    assert!(e.server_tick(LOBBY_RETRY_MS - 1).register.is_none());
    assert!(e.server_tick(1).register.is_some());
    assert_eq!(e.ticker.phase, Phase::WaitingForLobby);
}

#[test]
fn poll_replaces_turn_number() {
    let mut e = active_engine();
    let first = e.server_tick(1000).snapshot.expect("poll timer fired");
    e.handle_arena_state_result(first, Ok(arena(4, vec![ant("a", 1, 1)])));
    assert_eq!(e.world.turn_number, 4);
    let second = e.server_tick(1000).snapshot.unwrap();
    let o = e.handle_arena_state_result(second, Ok(arena(5, vec![ant("a", 1, 2)])));
    assert!(matches!(o, Outcome::SnapshotUpdated { .. }));
    assert_eq!(e.world.turn_number, 5);
    assert_eq!(e.world.level, 5);
    assert!(e.world.connected);
    assert_eq!(e.world.my_ants[0].position, HexCoord::new(1, 2));
}

#[test]
fn move_batch_with_one_error_still_updates() {
    let mut e = active_engine();
    e.queue_move("a".to_string(), vec![HexCoord::new(1, 0)]);
    e.queue_move("b".to_string(), vec![HexCoord::new(0, 1)]);
    e.queue_move("c".to_string(), vec![HexCoord::new(-1, 0)]);
    let plan = e.server_tick(10);
    let (id, req) = plan.moves.expect("batch sent");
    assert_eq!(req.moves.len(), 3);
    assert!(e.pending_moves.is_empty());
    let answer = ApiMoveResponse {
        ants: vec![ant("a", 1, 0), ant("b", 0, 1), ant("c", -1, 0)],
        enemies: vec![],
        food: vec![],
        home: vec![],
        map: vec![],
        errors: vec!["ant c: path blocked".to_string()],
        next_turn_in_ms: 900,
        score: 3,
        spot: ApiHex { q: 0, r: 0 },
        turn_no: 9,
    };
    match e.handle_move_response(id, Ok(answer)) {
        Outcome::SnapshotUpdated { move_errors } => {
            assert_eq!(move_errors, vec!["ant c: path blocked".to_string()]);
        },
        _ => panic!("expected an updated snapshot"),
    }
    assert_eq!(e.world.my_ants.len(), 3);
    assert_eq!(e.world.turn_number, 9);
    assert_eq!(e.world.score, 3);
    assert!(e.client.is_registered());
    assert!(!e.tasks.is_pending(OpKind::Moves));
}

#[test]
fn reconnect_while_active_registers_at_once() {
    let mut e = active_engine();
    let poll = e.server_tick(1000).snapshot.unwrap();
    let id = e.request_reconnect();
    assert!(!e.client.is_registered());
    assert!(!e.connection.connected);
    assert_eq!(e.connection.connection_message, "Reconnecting...");
    assert_eq!(e.ticker.phase, Phase::Registering);
    assert_eq!(e.ticker.backoff.interval_ms, BASE_BACKOFF_MS);
    assert_eq!(e.tasks.pending_id(OpKind::Register), Some(id));
    assert!(!e.tasks.is_pending(OpKind::Snapshot));
    // the poll started before the reconnect is stale now
    let o = e.handle_arena_state_result(poll, Ok(arena(3, vec![])));
    assert!(matches!(o, Outcome::Stale));
    assert_eq!(e.world.turn_number, 0);
}

#[test]
fn reconnect_from_idle_resets_backoff() {
    let mut e = SyncEngine::new(config());
    let id = e.server_tick(2000).register.unwrap();
    e.handle_registration_result(id, Err(refused()));
    assert_eq!(e.ticker.backoff.interval_ms, 3000);
    let fresh = e.request_reconnect();
    assert_eq!(e.ticker.backoff.interval_ms, 2000);
    assert_eq!(e.ticker.backoff.attempts, 0);
    assert_eq!(e.tasks.pending_id(OpKind::Register), Some(fresh));
}

#[test]
fn no_polling_while_unregistered() {
    let mut e = SyncEngine::new(config());
    for _ in 0..50 {
        let plan = e.server_tick(700);
        assert!(plan.snapshot.is_none());
        assert!(plan.moves.is_none());
        if let Some(id) = plan.register {
            e.handle_registration_result(id, Err(refused()));
        }
    }
    assert!(e.request_logs().is_none());
}

#[test]
fn one_registration_in_flight_at_a_time() {
    let mut e = SyncEngine::new(config());
    let first = e.server_tick(2000).register.unwrap();
    // the timer fires again while the first attempt is still running
    assert!(e.server_tick(2000).register.is_none());
    assert_eq!(e.tasks.pending_id(OpKind::Register), Some(first));
    e.handle_registration_result(first, Err(refused()));
    assert!(!e.tasks.is_pending(OpKind::Register));
    // a second harvest of the same operation is stale
    assert!(matches!(e.handle_registration_result(first, Err(refused())), Outcome::Stale));
    assert_eq!(e.ticker.backoff.attempts, 1);
}

#[test]
fn snapshot_replaces_units_wholesale() {
    let mut e = active_engine();
    let id = e.server_tick(1000).snapshot.unwrap();
    let mut first = arena(1, vec![ant("a", 0, 0), ant("b", 1, 0)]);
    first.enemies = vec![ApiEnemy {
        ant_type: 1,
        q: 4,
        r: 4,
        health: 50,
        food: ApiFood { amount: 0, food_type: 2 },
        attack: 10,
    }];
    e.handle_arena_state_result(id, Ok(first));
    assert_eq!(e.world.my_ants.len(), 2);
    assert_eq!(e.world.enemy_ants.len(), 1);
    let id = e.server_tick(1000).snapshot.unwrap();
    e.handle_arena_state_result(id, Ok(arena(2, vec![ant("b", 2, 0)])));
    assert_eq!(e.world.my_ants.len(), 1);
    assert_eq!(e.world.my_ants[0].id, "b");
    assert!(e.world.enemy_ants.is_empty());
}

#[test]
fn failed_poll_keeps_last_snapshot() {
    let mut e = active_engine();
    let id = e.server_tick(1000).snapshot.unwrap();
    e.handle_arena_state_result(id, Ok(arena(6, vec![ant("a", 0, 0)])));
    let id = e.server_tick(1000).snapshot.unwrap();
    let o = e.handle_arena_state_result(id, Err(SyncError::Decode("expected value".to_string())));
    match o {
        Outcome::SnapshotFailed { reason } => assert_eq!(reason, "JSON parsing error: expected value"),
        _ => panic!("expected a failed poll"),
    }
    assert!(!e.world.connected);
    assert_eq!(e.world.turn_number, 6);
    assert_eq!(e.world.my_ants.len(), 1);
    assert!(e.client.is_registered());
}

#[test]
fn failed_move_batch_keeps_registration() {
    let mut e = active_engine();
    e.queue_move("a".to_string(), vec![]);
    let (id, _) = e.server_tick(1).moves.unwrap();
    let o = e.handle_move_response(id, Err(refused()));
    assert!(matches!(o, Outcome::MovesFailed { .. }));
    assert!(e.client.is_registered());
    assert_eq!(e.ticker.phase, Phase::Active);
}

#[test]
fn later_move_for_same_unit_wins() {
    let mut e = active_engine();
    e.queue_move("a".to_string(), vec![HexCoord::new(1, 0)]);
    e.queue_move("b".to_string(), vec![HexCoord::new(2, 0)]);
    e.queue_move("a".to_string(), vec![HexCoord::new(3, 0), HexCoord::new(4, 0)]);
    assert_eq!(e.pending_moves.len(), 2);
    assert_eq!(e.pending_moves[0].ant, "a");
    assert_eq!(e.pending_moves[0].path.len(), 2);
    assert_eq!(e.pending_moves[0].path[1].q, 4);
}

#[test]
fn moves_respect_rate_limit() {
    let mut e = active_engine();
    e.queue_move("a".to_string(), vec![]);
    let (id, _) = e.server_tick(1).moves.unwrap();
    e.handle_move_response(id, Err(refused()));
    e.queue_move("b".to_string(), vec![]);
    assert!(e.server_tick(100).moves.is_none());
    assert!(e.server_tick(233).moves.is_none());
    assert!(e.server_tick(1).moves.is_some());
}

#[test]
fn logs_are_handed_over() {
    let mut e = active_engine();
    let id = e.request_logs().unwrap();
    assert!(e.request_logs().is_none());
    let logs = vec![ApiLogMessage { message: "ant spawned".to_string(), time: "12:00".to_string() }];
    match e.handle_logs_response(id, Ok(logs)) {
        Outcome::Logs(l) => assert_eq!(l[0].message, "ant spawned"),
        _ => panic!("expected logs"),
    }
    assert!(e.request_logs().is_some());
}

#[test]
fn monitor_reports_connection() {
    let mut e = active_engine();
    e.connection.connected = false;
    e.monitor_connection();
    assert!(e.connection.connected);
    assert_eq!(e.connection.connection_message, "Connected to r1 as bot1");
    e.request_reconnect();
    e.connection.connected = true;
    e.monitor_connection();
    assert!(!e.connection.connected);
    assert_eq!(e.connection.connection_message, "Disconnected");
}

#[test]
fn food_and_tiles_keyed_by_cell() {
    let mut e = active_engine();
    let id = e.server_tick(1000).snapshot.unwrap();
    let mut a = arena(1, vec![]);
    a.food = vec![
        ApiFoodOnMap { q: 1, r: 1, amount: 5, food_type: 3 },
        ApiFoodOnMap { q: 1, r: 1, amount: 9, food_type: 2 },
    ];
    a.map = vec![ApiTile { q: 0, r: 0, tile_type: 9, cost: 1 }];
    e.handle_arena_state_result(id, Ok(a));
    assert_eq!(e.world.food_on_map.len(), 1);
    assert_eq!(e.world.food_on_map[0].amount, 9);
    assert_eq!(e.world.visible_tiles.len(), 1);
    assert_eq!(e.world.visible_tiles[0].tile_type, datspulse_sync::types::TileType::Plain);
    assert_eq!(e.world.home_tiles, vec![HexCoord::new(0, 0)]);
    assert_eq!(e.world.next_turn_in_ms, 1500);
}

#[test]
fn zero_tick_rate_polls_every_tick() {
    let mut c = config();
    c.tick_rate_ms = 0;
    let mut e = SyncEngine::new(c);
    let id = e.server_tick(2000).register.unwrap();
    e.handle_registration_result(id, Ok(registration("r", "n", 0)));
    let poll = e.server_tick(0).snapshot.expect("a zero period fires at once");
    assert!(e.server_tick(0).snapshot.is_none());
    e.handle_arena_state_result(poll, Ok(arena(1, vec![])));
    assert!(e.server_tick(0).snapshot.is_some());
}

#[test]
fn answer_counts_are_kept() {
    let mut e = active_engine();
    let id = e.server_tick(1000).snapshot.unwrap();
    let mut a = arena(1, vec![ant("a", 0, 0), ant("a", 1, 0), ant("b", 2, 0)]);
    a.food = vec![ApiFoodOnMap { q: 1, r: 1, amount: 5, food_type: 3 }];
    e.handle_arena_state_result(id, Ok(a));
    assert_eq!(e.world.ants_count, 3);
    assert_eq!(e.world.my_ants.len(), 2);
    assert_eq!(e.world.enemies_count, 0);
    assert_eq!(e.world.food_count, 1);
}

#[test]
fn reconnects_in_one_tick_start_one_registration() {
    let mut e = active_engine();
    let first = e.request_reconnect();
    let second = e.request_reconnect();
    assert_eq!(first, second);
    assert_eq!(e.tasks.entries.len(), 1);
    e.server_tick(5);
    let third = e.request_reconnect();
    assert_ne!(third, first);
    assert_eq!(e.tasks.pending_id(OpKind::Register), Some(third));
}

#[test]
fn poll_in_flight_survives_a_move_batch() {
    let mut e = active_engine();
    let poll = e.server_tick(1000).snapshot.unwrap();
    e.queue_move("a".to_string(), vec![HexCoord::new(1, 0)]);
    let plan = e.server_tick(1000);
    assert!(plan.snapshot.is_none());
    assert!(plan.moves.is_some());
    assert_eq!(e.tasks.pending_id(OpKind::Snapshot), Some(poll));
}
