use datspulse_sync::api::{create_move_command, create_move_request, ApiAnt, ApiArenaResponse, ApiFood};
use datspulse_sync::backoff::{Backoff, BACKOFF_CAP_MS};
use datspulse_sync::pending::{OpKind, TaskSupervisor};
use datspulse_sync::rate_limiter::RateLimiter;
use datspulse_sync::text::{contains, extract_next_round_info, is_lobby_failure};
use datspulse_sync::timer::RepeatingTimer;
use datspulse_sync::transport::{
    check_status, classify_failure, endpoint_url, Endpoint, FailureClass, ServerConfig, SyncError,
};
use datspulse_sync::types::{AntType, ApiHex, FoodType, HexCoord, TileType};
use datspulse_sync::world::{Ant, GameState};

#[test]
fn timer_fires_and_keeps_remainder() {
    let mut t = RepeatingTimer::new(1000);
    assert!(!t.tick(400));
    assert_eq!(t.elapsed_ms, 400);
    assert!(t.tick(700));
    assert_eq!(t.elapsed_ms, 100);
    assert!(t.tick(2950));
    assert_eq!(t.elapsed_ms, 50);
    t.restart_with(500);
    assert_eq!((t.duration_ms, t.elapsed_ms), (500, 0));
    assert!(t.tick(u64::MAX));
}

#[test]
fn backoff_grows_by_half_up_to_cap() {
    let mut b = Backoff::new();
    let mut seen = vec![b.interval_ms];
    for _ in 0..12 {
        b.escalate();
        seen.push(b.interval_ms);
    }
    assert_eq!(&seen[..5], &[2000, 3000, 4500, 6750, 10125]);
    for w in seen.windows(2) {
        assert!(w[0] <= w[1]);
    }
    assert_eq!(*seen.last().unwrap(), BACKOFF_CAP_MS);
    assert_eq!(b.attempts, 12);
    b.reset_interval();
    assert_eq!((b.interval_ms, b.attempts), (2000, 12));
    b.reset();
    assert_eq!((b.interval_ms, b.attempts), (2000, 0));
}

#[test]
fn next_round_message_from_schedule() {
    assert_eq!(
        extract_next_round_info("400 Bad Request - no active game, next rounds: [100,200]"),
        "Next round: 100,200"
    );
    assert_eq!(extract_next_round_info("lobby ended"), "Waiting for next round...");
    assert_eq!(extract_next_round_info("next rounds: none"), "Waiting for next round...");
    assert_eq!(extract_next_round_info("next rounds: ] [7"), "Waiting for next round...");
    assert_eq!(extract_next_round_info("next rounds: []"), "Next round: ");
}

#[test]
fn lobby_markers_are_recognised() {
    assert!(is_lobby_failure("no active game, next rounds: [1]"));
    assert!(is_lobby_failure("the lobby ended"));
    assert!(!is_lobby_failure("connection refused"));
    assert!(contains("abc", ""));
    assert!(!contains("", "a"));
    assert!(contains("hex grid", "x g"));
}

#[test]
fn failures_are_classified() {
    let soft = SyncError::Protocol {
        status: 400,
        status_text: "400 Bad Request".to_string(),
        body: "lobby ended".to_string(),
    };
    assert_eq!(classify_failure(&soft), FailureClass::Soft);
    assert_eq!(soft.describe(), "400 Bad Request - lobby ended");
    let hard = SyncError::Transport("timed out".to_string());
    assert_eq!(classify_failure(&hard), FailureClass::Hard);
    assert_eq!(classify_failure(&SyncError::Decode("no active game".to_string())), FailureClass::Soft);
}

#[test]
fn status_check_accepts_only_success() {
    assert_eq!(check_status(204, "204 No Content".to_string(), "{}".to_string()).unwrap(), "{}");
    match check_status(503, "503 Service Unavailable".to_string(), "busy".to_string()) {
        Err(SyncError::Protocol { status, body, .. }) => {
            assert_eq!(status, 503);
            assert_eq!(body, "busy");
        },
        _ => panic!("expected a protocol failure"),
    }
    assert!(check_status(199, String::new(), String::new()).is_err());
    assert!(check_status(300, String::new(), String::new()).is_err());
}

#[test]
fn urls_join_with_one_slash() {
    assert_eq!(endpoint_url("https://h/api///", "//arena"), "https://h/api/arena");
    assert_eq!(endpoint_url("https://h/api", "move"), "https://h/api/move");
    let c = ServerConfig {
        url: "http://x/".to_string(),
        token: "SECRET-REDACTED".to_string(),
        tick_rate_ms: 1,
        auto_reconnect: false,
    };
    assert_eq!(c.url_for(Endpoint::Register), "http://x/register");
    assert_eq!(c.url_for(Endpoint::Logs), "http://x/logs");
    assert!(Endpoint::Move.is_post());
    assert!(!Endpoint::Arena.is_post());
}

#[test]
fn one_operation_per_kind() {
    let mut t = TaskSupervisor::new();
    let a = t.spawn(OpKind::Snapshot).unwrap();
    assert!(t.spawn(OpKind::Snapshot).is_none());
    let b = t.spawn(OpKind::Moves).unwrap();
    assert_ne!(a, b);
    assert!(!t.harvest(b, OpKind::Snapshot));
    assert!(t.harvest(a, OpKind::Snapshot));
    assert!(!t.harvest(a, OpKind::Snapshot));
    assert!(!t.is_pending(OpKind::Snapshot));
    assert!(t.is_pending(OpKind::Moves));
    let c = t.spawn(OpKind::Snapshot).unwrap();
    assert!(c > b);
    t.forget_all();
    assert!(t.pending_id(OpKind::Moves).is_none());
}

#[test]
fn rate_limiter_spaces_requests() {
    let mut r = RateLimiter::default();
    assert!(r.can_make_request(10));
    assert!(!r.can_make_request(343));
    assert!(r.can_make_request(344));
    assert!(!r.can_make_request(100));
}

#[test]
fn type_codes_round_trip() {
    assert_eq!(AntType::from_api(2), Some(AntType::Scout));
    assert_eq!(AntType::from_api(3), None);
    assert_eq!(AntType::Soldier.to_api(), 1);
    assert_eq!(AntType::Scout.health(), 80);
    assert_eq!(AntType::Soldier.attack(), 70);
    assert_eq!(AntType::Worker.capacity(), 8);
    assert_eq!(AntType::Scout.view_range(), 4);
    assert_eq!(AntType::Scout.speed(), 7);
    assert_eq!(FoodType::from_api(3), Some(FoodType::Nectar));
    assert_eq!(FoodType::from_api(0), None);
    assert_eq!(FoodType::Bread.to_api(), 2);
    assert_eq!(FoodType::Nectar.calories(), 60);
    assert_eq!(TileType::from_api(5), Some(TileType::Rock));
    assert_eq!(TileType::Acid.to_api(), 4);
    assert!(!TileType::Rock.is_passable());
    assert_eq!(TileType::Dirt.movement_cost(), Some(2));
    assert_eq!(TileType::Rock.movement_cost(), None);
    assert_eq!(TileType::Acid.damage(), 20);
    assert_eq!(TileType::Plain.damage(), 0);
}

#[test]
fn hex_geometry() {
    let a = HexCoord::new(0, 0);
    let b = HexCoord::new(2, -1);
    assert_eq!(a.distance(&b), 2);
    assert_eq!(b.distance_to(&a), 2);
    assert_eq!(b.s(), -1);
    let n = a.neighbors();
    assert_eq!(n.len(), 6);
    assert_eq!(n[0], HexCoord::new(1, 0));
    assert_eq!(n[4], HexCoord::new(-1, 1));
    for c in &n {
        assert_eq!(a.distance(c), 1);
    }
    assert_eq!(ApiHex { q: 3, r: 4 }.to_coord(), HexCoord::new(3, 4));
}

#[test]
fn move_commands_convert_paths() {
    let c = create_move_command("a1".to_string(), vec![HexCoord::new(1, 2), HexCoord::new(3, 4)]);
    assert_eq!(c.ant, "a1");
    assert_eq!(c.path, vec![ApiHex { q: 1, r: 2 }, ApiHex { q: 3, r: 4 }]);
    let r = create_move_request(vec![c]);
    assert_eq!(r.moves.len(), 1);
}

#[test]
fn ants_convert_with_defaults() {
    let api = ApiAnt {
        id: "x".to_string(),
        ant_type: 7,
        q: 1,
        r: 2,
        health: 33,
        food: ApiFood { amount: 4, food_type: 9 },
        last_move: vec![ApiHex { q: 0, r: 1 }],
        current_move: vec![],
        last_attack: Some(ApiHex { q: 5, r: 5 }),
        last_enemy_ant: Some("e".to_string()),
    };
    let ant = Ant::from_api(&api);
    assert_eq!(ant.ant_type, AntType::Worker);
    assert_eq!(ant.max_health, 130);
    assert_eq!(ant.food(), Some((FoodType::Apple, 4)));
    assert!(ant.food.is_some());
    assert_eq!(ant.last_move, vec![HexCoord::new(0, 1)]);
    assert_eq!(ant.last_attack, Some(HexCoord::new(5, 5)));
    assert_eq!(ant.last_enemy_ant.as_deref(), Some("e"));
}

#[test]
fn snapshot_keeps_last_unit_per_id() {
    let mk = |id: &str, q: i32| ApiAnt {
        id: id.to_string(),
        ant_type: 1,
        q,
        r: 0,
        health: 10,
        food: ApiFood { amount: 0, food_type: 1 },
        last_move: vec![],
        current_move: vec![],
        last_attack: None,
        last_enemy_ant: None,
    };
    let resp = ApiArenaResponse {
        ants: vec![mk("a", 1), mk("b", 2), mk("a", 3)],
        enemies: vec![],
        food: vec![],
        home: vec![],
        map: vec![],
        next_turn_in_ms: 0,
        score: 0,
        spot: ApiHex { q: 9, r: 9 },
        turn_no: 1,
    };
    let g = GameState::from_api_response(&resp, 42);
    assert_eq!(g.my_ants.len(), 2);
    assert_eq!(g.my_ants[0].id, "a");
    assert_eq!(g.my_ants[0].position.q, 3);
    assert_eq!(g.my_ants[1].id, "b");
    assert_eq!(g.main_spot, HexCoord::new(9, 9));
    assert_eq!(g.last_update_ms, 42);
    let d = GameState::default();
    assert!(!d.connected);
    assert_eq!(d.level, 1);
}
