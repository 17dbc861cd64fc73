use splatoon_client::client::{ConnectionState, NetworkClient};
use splatoon_client::dispatch::{Diagnostic, GameState};
use splatoon_client::encode::{decode_intent, OutboundIntent};
use splatoon_client::events::InboundEvent;
use splatoon_client::json::Number;
use splatoon_client::manager::NetworkManager;
use splatoon_client::systems::{
    handle_udp_messages, send_all, send_player_position_udp, send_shoot_action_udp,
    send_test_requests, setup_udp_network, RequestKeys,
};
use splatoon_client::transport::{
    join_intent, transport_step, TransportAction, TransportEvent, TransportState, RECEIVE_BUFFER,
};

const PLAYER: &str = "6f9619ff-8b86-d011-b42d-00cf4fc964ff";

fn decimal(text: &str) -> Number {
    Number::Decimal(text.to_string())
}

fn as_float(n: &Number) -> f64 {
    match n {
        Number::Int(i) => *i as f64,
        Number::Decimal(s) => s.parse().unwrap(),
    }
}

fn connected_client() -> NetworkClient {
    let mut client = NetworkClient::new(PLAYER.to_string());
    assert!(client.ensure_connected());
    client
}

#[test]
fn new_handle_is_disconnected() {
    let client = NetworkClient::new(PLAYER.to_string());
    assert_eq!(client.player_id, PLAYER);
    assert_eq!(client.state, ConnectionState::Disconnected);
    assert!(!client.connected());
    assert!(client.outbound.is_empty());
    assert!(client.inbound.is_empty());
}

#[test]
fn ensure_connected_is_idempotent() {
    let mut client = NetworkClient::new(PLAYER.to_string());
    assert!(client.ensure_connected());
    assert_eq!(client.state, ConnectionState::Connecting);
    assert!(client.connected());
    assert!(client.send(&OutboundIntent::GameStateRequest));
    let before_outbound = client.outbound.clone();
    assert!(!client.ensure_connected());
    assert_eq!(client.state, ConnectionState::Joined);
    assert_eq!(client.outbound, before_outbound);
    assert!(!setup_udp_network(&mut client));
}

#[test]
fn send_on_a_disconnected_handle_is_dropped() {
    let mut client = NetworkClient::new(PLAYER.to_string());
    assert!(!client.send(&OutboundIntent::Ping { client_ts: 1 }));
    assert!(client.outbound.is_empty());
    assert_eq!(client.state, ConnectionState::Disconnected);
    assert!(!send_all(&mut client, &vec![OutboundIntent::InfoRequest]));
    assert!(!send_player_position_udp(&mut client, &vec![(Number::Int(1), Number::Int(2))]));
    assert!(!send_shoot_action_udp(&mut client, true, Some((Number::Int(1), Number::Int(0)))));
    let keys = RequestKeys { ping: true, player_info: true, game_state: true };
    assert!(!send_test_requests(&mut client, keys, 5));
    assert!(client.outbound.is_empty());
}

#[test]
fn send_queues_frames_in_order() {
    let mut client = connected_client();
    assert!(client.send(&OutboundIntent::Ping { client_ts: 1000 }));
    assert_eq!(client.state, ConnectionState::Joined);
    assert!(client.send(&OutboundIntent::InfoRequest));
    assert_eq!(
        client.outbound,
        vec![
            r#"{"timestamp":1000,"type":"ping"}"#.to_string(),
            format!(r#"{{"player_id":"{}","type":"get_player_info"}}"#, PLAYER),
        ]
    );
    let taken = client.take_outbound();
    assert_eq!(taken.len(), 2);
    assert!(client.outbound.is_empty());
    assert_eq!(client.state, ConnectionState::Joined);
}

#[test]
fn drain_of_an_empty_queue_is_empty() {
    let mut client = connected_client();
    assert_eq!(client.drain(), vec![]);
    assert_eq!(client.state, ConnectionState::Connecting);
    let mut idle = NetworkClient::new(PLAYER.to_string());
    assert_eq!(idle.drain(), vec![]);
    assert_eq!(idle.state, ConnectionState::Disconnected);
}

#[test]
fn deliver_to_a_disconnected_handle_is_dropped() {
    let mut client = NetworkClient::new(PLAYER.to_string());
    assert!(!client.deliver(r#"{"type":"connected"}"#.to_string()));
    assert!(client.inbound.is_empty());
    assert_eq!(client.drain(), vec![]);
}

#[test]
fn drain_decodes_in_arrival_order_and_drops_malformed_frames() {
    let mut client = connected_client();
    assert!(client.deliver(r#"{"type":"connected"}"#.to_string()));
    assert!(client.deliver("garbage".to_string()));
    assert!(client.deliver(r#"{"type":"error","message":"slow down"}"#.to_string()));
    assert!(client.deliver(r#"{"type":"mystery"}"#.to_string()));
    let events = client.drain();
    assert_eq!(
        events,
        vec![
            InboundEvent::Connected,
            InboundEvent::ServerError { message: "slow down".to_string() },
            InboundEvent::Unknown { raw: r#"{"type":"mystery"}"#.to_string() },
        ]
    );
    assert!(client.inbound.is_empty());
    assert_eq!(client.state, ConnectionState::Joined);
    assert_eq!(client.drain(), vec![]);
}

#[test]
fn a_malformed_frame_alone_still_counts_as_observed() {
    let mut client = connected_client();
    assert!(client.deliver("garbage".to_string()));
    assert_eq!(client.drain(), vec![]);
    assert_eq!(client.state, ConnectionState::Joined);
}

#[test]
fn transport_closed_disconnects() {
    let mut client = connected_client();
    assert!(client.send(&OutboundIntent::GameStateRequest));
    client.transport_closed();
    assert_eq!(client.state, ConnectionState::Disconnected);
    assert!(client.outbound.is_empty());
    assert!(!client.send(&OutboundIntent::GameStateRequest));
    assert!(client.ensure_connected());
    assert_eq!(client.state, ConnectionState::Connecting);
}

#[test]
fn join_handshake_joins_the_handle() {
    let mut client = connected_client();
    let mut game = GameState::new();
    let (state, action) = transport_step(TransportState::Starting, TransportEvent::Bound, PLAYER);
    assert_eq!(state, TransportState::Running);
    let sent = match action {
        TransportAction::Send(frame) => frame,
        other => panic!("{:?}", other),
    };
    let written = format!(
        r#"{{"type":"join_game","game_id":"default","player_id":"{}","team":"blue"}}"#,
        PLAYER
    );
    assert_eq!(decode_intent(&sent), decode_intent(&written));
    assert_eq!(decode_intent(&sent).unwrap().intent, join_intent());
    assert_eq!(decode_intent(&sent).unwrap().player_id, Some(PLAYER.to_string()));

    let reply = TransportEvent::Datagram(br#"{"type":"connected"}"#.to_vec());
    let (state, action) = transport_step(state, reply, PLAYER);
    assert_eq!(state, TransportState::Running);
    let frame = match action {
        TransportAction::Forward(frame) => frame,
        other => panic!("{:?}", other),
    };
    assert!(client.deliver(frame));
    assert_eq!(client.state, ConnectionState::Connecting);
    assert!(!game.acknowledged());
    let reports = handle_udp_messages(&mut client, &mut game);
    assert_eq!(reports, vec![Diagnostic::Acknowledged]);
    assert!(game.acknowledged());
    assert_eq!(client.state, ConnectionState::Joined);
}

#[test]
fn ping_pong_reports_the_round_trip() {
    let mut client = connected_client();
    let mut game = GameState::new();
    let keys = RequestKeys { ping: true, player_info: false, game_state: false };
    assert!(send_test_requests(&mut client, keys, 1000));
    let frames = client.take_outbound();
    assert_eq!(frames.len(), 1);
    assert_eq!(decode_intent(&frames[0]), decode_intent(r#"{"type":"ping","timestamp":1000}"#));
    assert_eq!(decode_intent(&frames[0]).unwrap().intent, OutboundIntent::Ping { client_ts: 1000 });
    client.deliver(r#"{"type":"pong","client_timestamp":1000,"server_timestamp":1002}"#.to_string());
    let reports = handle_udp_messages(&mut client, &mut game);
    assert_eq!(reports, vec![Diagnostic::RoundTrip { rtt: 2 }]);
    assert_eq!(game.player_count(), 0);
}

#[test]
fn player_update_datagram_moves_the_player() {
    let mut client = connected_client();
    let mut game = GameState::new();
    let datagram =
        br#"{"type":"player_update","player_id":"abc","position":{"x":5.0,"y":-3.0}}"#.to_vec();
    let (_, action) =
        transport_step(TransportState::Running, TransportEvent::Datagram(datagram), PLAYER);
    match action {
        TransportAction::Forward(frame) => assert!(client.deliver(frame)),
        other => panic!("{:?}", other),
    }
    let reports = handle_udp_messages(&mut client, &mut game);
    assert_eq!(reports, vec![Diagnostic::Updated]);
    let (x, y) = game.player_position("abc").unwrap();
    assert_eq!((as_float(&x), as_float(&y)), (5.0, -3.0));
    assert_eq!(game.player_position("abd"), None);
}

#[test]
fn test_requests_go_out_in_key_order() {
    let mut client = connected_client();
    let keys = RequestKeys { ping: true, player_info: true, game_state: true };
    assert!(send_test_requests(&mut client, keys, 77));
    let intents: Vec<OutboundIntent> =
        client.outbound.iter().map(|f| decode_intent(f).unwrap().intent).collect();
    assert_eq!(
        intents,
        vec![
            OutboundIntent::Ping { client_ts: 77 },
            OutboundIntent::InfoRequest,
            OutboundIntent::GameStateRequest
        ]
    );
    let mut quiet = connected_client();
    let none = RequestKeys { ping: false, player_info: false, game_state: false };
    assert!(send_test_requests(&mut quiet, none, 77));
    assert!(quiet.outbound.is_empty());
    assert_eq!(quiet.state, ConnectionState::Connecting);
}

#[test]
fn positions_go_out_as_moves() {
    let mut client = connected_client();
    let positions = vec![(decimal("1.5"), decimal("2.5")), (Number::Int(3), Number::Int(4))];
    assert!(send_player_position_udp(&mut client, &positions));
    assert_eq!(
        client.outbound,
        vec![
            r#"{"position":{"x":1.5,"y":2.5},"type":"player_move"}"#.to_string(),
            r#"{"position":{"x":3,"y":4},"type":"player_move"}"#.to_string(),
        ]
    );
}

#[test]
fn a_shot_needs_a_press_and_an_aim() {
    let mut client = connected_client();
    assert!(!send_shoot_action_udp(&mut client, false, Some((decimal("0.6"), decimal("0.8")))));
    assert!(!send_shoot_action_udp(&mut client, true, None));
    assert!(client.outbound.is_empty());
    assert!(send_shoot_action_udp(&mut client, true, Some((decimal("0.6"), decimal("0.8")))));
    assert_eq!(
        client.outbound,
        vec![r#"{"direction":{"x":0.6,"y":0.8},"type":"player_shoot"}"#.to_string()]
    );
}

#[test]
fn transport_forwards_text_and_drops_other_bytes() {
    assert_eq!(RECEIVE_BUFFER, 1024);
    let (state, action) = transport_step(
        TransportState::Running,
        TransportEvent::Datagram(vec![0xff, 0xfe, 0x00]),
        PLAYER,
    );
    assert_eq!((state, action), (TransportState::Running, TransportAction::Nothing));
    let (state, action) = transport_step(
        TransportState::Running,
        TransportEvent::Datagram("héllo".as_bytes().to_vec()),
        PLAYER,
    );
    assert_eq!((state, action), (TransportState::Running, TransportAction::Forward("héllo".to_string())));
    let (state, action) =
        transport_step(TransportState::Running, TransportEvent::Datagram(vec![]), PLAYER);
    assert_eq!((state, action), (TransportState::Running, TransportAction::Forward(String::new())));
}

#[test]
fn transport_writes_one_datagram_per_frame() {
    let (state, action) = transport_step(
        TransportState::Running,
        TransportEvent::Outbound("frame".to_string()),
        PLAYER,
    );
    assert_eq!((state, action), (TransportState::Running, TransportAction::Send("frame".to_string())));
    let (state, action) = transport_step(TransportState::Running, TransportEvent::Bound, PLAYER);
    assert_eq!((state, action), (TransportState::Running, TransportAction::Nothing));
}

#[test]
fn transport_stops_on_the_first_failure() {
    for event in
        [TransportEvent::SendFailed, TransportEvent::ReceiveFailed, TransportEvent::BridgeClosed]
    {
        let (state, action) = transport_step(TransportState::Running, event, PLAYER);
        assert_eq!((state, action), (TransportState::Stopped, TransportAction::Stop));
    }
    for event in [
        TransportEvent::SendFailed,
        TransportEvent::ReceiveFailed,
        TransportEvent::BridgeClosed,
        TransportEvent::Outbound("early".to_string()),
        TransportEvent::Datagram(vec![b'x']),
    ] {
        let (state, action) = transport_step(TransportState::Starting, event, PLAYER);
        assert_eq!((state, action), (TransportState::Stopped, TransportAction::Stop));
    }
    for event in [
        TransportEvent::Bound,
        TransportEvent::Outbound("late".to_string()),
        TransportEvent::Datagram(vec![b'x']),
        TransportEvent::SendFailed,
    ] {
        let (state, action) = transport_step(TransportState::Stopped, event, PLAYER);
        assert_eq!((state, action), (TransportState::Stopped, TransportAction::Nothing));
    }
}

#[test]
fn manager_makes_frames() {
    let mut manager = NetworkManager::new("ws://localhost:8080/ws".to_string());
    assert_eq!(manager.server_url(), "ws://localhost:8080/ws");
    let join = manager.join_frame(PLAYER);
    assert_eq!(decode_intent(&join).unwrap().intent, join_intent());
    assert_eq!(decode_intent(&join).unwrap().player_id, Some(PLAYER.to_string()));
    assert_eq!(
        manager.send_player_move((decimal("1.5"), decimal("-2.5"))),
        r#"{"position":{"x":1.5,"y":-2.5},"type":"player_move"}"#
    );
    assert_eq!(
        manager.send_shoot((Number::Int(0), Number::Int(1))),
        r#"{"direction":{"x":0,"y":1},"type":"player_shoot"}"#
    );
    assert_eq!(manager.server_url(), "ws://localhost:8080/ws");
}
