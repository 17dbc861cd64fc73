use splatoon_client::dispatch::{round_trip, Diagnostic, GameState};
use splatoon_client::events::{ClientInfo, InboundEvent, PaintedTile, RemotePlayerState};
use splatoon_client::json::Number;

fn decimal(text: &str) -> Number {
    Number::Decimal(text.to_string())
}

fn update(id: &str, x: &str, y: &str) -> InboundEvent {
    InboundEvent::PlayerUpdate { player_id: id.to_string(), x: decimal(x), y: decimal(y) }
}

fn player(id: &str, x: i64, y: i64) -> RemotePlayerState {
    RemotePlayerState {
        id: id.to_string(),
        x: Number::Int(x),
        y: Number::Int(y),
        health: Some(100),
        team: Some("blue".to_string()),
    }
}

#[test]
fn new_state_is_empty() {
    let game = GameState::new();
    assert_eq!(game.player_count(), 0);
    assert_eq!(game.tile_count(), 0);
    assert!(!game.acknowledged());
    assert_eq!(game.player_position("abc"), None);
    assert_eq!(game.tile_color((0, 0)), None);
}

#[test]
fn last_update_wins() {
    let mut game = GameState::new();
    assert_eq!(game.apply(&update("abc", "1.0", "2.0")), Diagnostic::Updated);
    assert_eq!(game.apply(&update("other", "9.0", "9.0")), Diagnostic::Updated);
    assert_eq!(game.apply(&update("abc", "3.5", "-4.5")), Diagnostic::Updated);
    assert_eq!(game.player_position("abc"), Some((decimal("3.5"), decimal("-4.5"))));
    assert_eq!(game.player_position("other"), Some((decimal("9.0"), decimal("9.0"))));
    assert_eq!(game.player_count(), 2);

    let mut once = GameState::new();
    once.apply(&update("other", "9.0", "9.0"));
    once.apply(&update("abc", "3.5", "-4.5"));
    assert_eq!(once.player_position("abc"), game.player_position("abc"));
    assert_eq!(once.player_count(), game.player_count());
}

#[test]
fn update_after_snapshot_is_applied() {
    let mut game = GameState::new();
    game.apply(&update("gone", "0.0", "0.0"));
    game.apply(&InboundEvent::PaintUpdate { tile: (9, 9), color: "blue".to_string() });
    let snapshot = InboundEvent::GameStateSnapshot {
        players: vec![player("abc", 10, 10), player("def", 20, 20)],
        painted_tiles: vec![PaintedTile { tile: (1, 1), color: "orange".to_string() }],
    };
    assert_eq!(game.apply(&snapshot), Diagnostic::Updated);
    assert_eq!(game.player_position("gone"), None);
    assert_eq!(game.tile_color((9, 9)), None);
    assert_eq!(game.player_position("abc"), Some((Number::Int(10), Number::Int(10))));
    assert_eq!(game.apply(&update("abc", "1.0", "1.0")), Diagnostic::Updated);
    assert_eq!(game.player_position("abc"), Some((decimal("1.0"), decimal("1.0"))));
    assert_eq!(game.player_position("def"), Some((Number::Int(20), Number::Int(20))));
    assert_eq!(game.tile_color((1, 1)), Some("orange".to_string()));
    assert_eq!(game.player_count(), 2);
    assert_eq!(game.tile_count(), 1);
}

#[test]
fn a_move_keeps_health_and_team() {
    let mut game = GameState::new();
    game.put_player(player("abc", 1, 1));
    game.upsert_player("abc", &decimal("2.5"), &decimal("3.5"));
    assert_eq!(
        game.player("abc"),
        Some(RemotePlayerState {
            id: "abc".to_string(),
            x: decimal("2.5"),
            y: decimal("3.5"),
            health: Some(100),
            team: Some("blue".to_string()),
        })
    );
    game.upsert_player("new", &Number::Int(0), &Number::Int(0));
    assert_eq!(
        game.player("new"),
        Some(RemotePlayerState {
            id: "new".to_string(),
            x: Number::Int(0),
            y: Number::Int(0),
            health: None,
            team: None,
        })
    );
    assert_eq!(game.player("nobody"), None);
    assert_eq!(game.player_count(), 2);
}

#[test]
fn snapshot_keeps_the_later_of_two_entries() {
    let mut game = GameState::new();
    game.replace_all(
        &vec![player("abc", 1, 1), player("def", 2, 2), player("abc", 3, 3)],
        &vec![
            PaintedTile { tile: (0, 0), color: "blue".to_string() },
            PaintedTile { tile: (0, 0), color: "orange".to_string() },
        ],
    );
    assert_eq!(game.player_count(), 2);
    assert_eq!(game.player_position("abc"), Some((Number::Int(3), Number::Int(3))));
    assert_eq!(game.tile_count(), 1);
    assert_eq!(game.tile_color((0, 0)), Some("orange".to_string()));
}

#[test]
fn paint_update_overwrites_a_tile() {
    let mut game = GameState::new();
    game.paint_tile((2, -3), "blue");
    assert_eq!(game.tile_color((2, -3)), Some("blue".to_string()));
    let repaint = InboundEvent::PaintUpdate { tile: (2, -3), color: "orange".to_string() };
    assert_eq!(game.apply(&repaint), Diagnostic::Updated);
    assert_eq!(game.tile_color((2, -3)), Some("orange".to_string()));
    assert_eq!(game.tile_color((-3, 2)), None);
    assert_eq!(game.tile_count(), 1);
    game.paint_tile((-3, 2), "blue");
    assert_eq!(game.tile_count(), 2);
}

#[test]
fn events_that_only_inform_leave_the_state() {
    let mut game = GameState::new();
    game.upsert_player("abc", &Number::Int(1), &Number::Int(2));
    let events = vec![
        InboundEvent::Pong { client_ts: 1000, server_ts: 1002 },
        InboundEvent::PlayerInfoResponse { player_id: "abc".to_string(), connected_clients: 2 },
        InboundEvent::GameStateResponse {
            total_clients: 1,
            clients: vec![ClientInfo { ip: "::1".to_string(), port: 1, team: "blue".to_string() }],
        },
        InboundEvent::ServerError { message: "no".to_string() },
        InboundEvent::Unknown { raw: "{}".to_string() },
        InboundEvent::Connected,
    ];
    let reports = game.apply_all(&events);
    assert_eq!(
        reports,
        vec![
            Diagnostic::RoundTrip { rtt: 2 },
            Diagnostic::Info,
            Diagnostic::Info,
            Diagnostic::Warning,
            Diagnostic::Ignored,
            Diagnostic::Acknowledged,
        ]
    );
    assert_eq!(game.player_count(), 1);
    assert_eq!(game.player_position("abc"), Some((Number::Int(1), Number::Int(2))));
    assert_eq!(game.tile_count(), 0);
    assert!(game.acknowledged());
}

#[test]
fn round_trip_is_server_time_less_client_time() {
    assert_eq!(round_trip(1000, 1002), 2);
    assert_eq!(round_trip(1002, 1000), -2);
    assert_eq!(round_trip(i64::MIN, i64::MAX), 18446744073709551615);
    assert_eq!(round_trip(i64::MAX, i64::MIN), -18446744073709551615);
}

#[test]
fn apply_all_of_nothing_changes_nothing() {
    let mut game = GameState::new();
    assert_eq!(game.apply_all(&vec![]), vec![]);
    assert_eq!(game.player_count(), 0);
}
