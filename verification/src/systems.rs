//! What the simulation loop does with the connection each tick.

use crate::client::{events_of, frame_of, frames_view, ConnectionState, NetworkClient};
use crate::dispatch::{applied_upto, diagnostic_of, Diagnostic, GameState};
use crate::encode::{IntentView, OutboundIntent};
use crate::json::Number;
use vstd::prelude::*;

verus! {

/// The frames of a sequence of intents.
pub open spec fn frames_of(intents: Seq<IntentView>, player_id: Seq<char>) -> Seq<Seq<char>> {
    intents.map_values(|i: IntentView| frame_of(i, player_id))
}

/// The views of a sequence of intents.
pub open spec fn intents_view(intents: Seq<OutboundIntent>) -> Seq<IntentView> {
    intents.map_values(|i: OutboundIntent| i@)
}

/// The moves that report a sequence of positions.
pub open spec fn moves_of(positions: Seq<(Number, Number)>) -> Seq<IntentView> {
    positions.map_values(|p: (Number, Number)| IntentView::Move { x: p.0@, y: p.1@ })
}

/// The keys of the diagnostic requests, as pressed this tick.
#[derive(Clone, Copy, Debug, PartialEq, Eq, Structural)]
pub struct RequestKeys {
    pub ping: bool,
    pub player_info: bool,
    pub game_state: bool,
}

/// The requests that the pressed keys ask for: a ping stamped `now`, then
/// the player's info, then the game state.
pub open spec fn requests_of(keys: RequestKeys, now: i64) -> Seq<IntentView> {
    let ping = if keys.ping {
        seq![IntentView::Ping { client_ts: now }]
    } else {
        Seq::empty()
    };
    let info = if keys.player_info {
        seq![IntentView::InfoRequest]
    } else {
        Seq::empty()
    };
    let game = if keys.game_state {
        seq![IntentView::GameStateRequest]
    } else {
        Seq::empty()
    };
    ping + info + game
}

/// Starts the connection if there is none; `true` where the caller is to
/// start the transport task.
pub fn setup_udp_network(client: &mut NetworkClient) -> (spawn: bool)
    ensures
        spawn == !old(client).is_connected(),
        final(client).player_id == old(client).player_id,
        old(client).is_connected() ==> *final(client) == *old(client),
        !old(client).is_connected() ==> {
            &&& final(client).state == ConnectionState::Connecting
            &&& final(client).outbound@.len() == 0
            &&& final(client).inbound@.len() == 0
        },
{
    client.ensure_connected()
}

/// Sends intents in order. A connected handle queues the frame of each and
/// answers `true`; a disconnected one is left as it is.
pub fn send_all(client: &mut NetworkClient, intents: &Vec<OutboundIntent>) -> (queued: bool)
    ensures
        queued == old(client).is_connected(),
        final(client).player_id == old(client).player_id,
        final(client).inbound == old(client).inbound,
        !queued || intents@.len() == 0 ==> *final(client) == *old(client),
        queued && intents@.len() > 0 ==> final(client).state == ConnectionState::Joined,
        queued ==> frames_view(final(client).outbound@) == frames_view(old(client).outbound@)
            + frames_of(intents_view(intents@), old(client).player_id@),
{
    if !client.connected() {
        return false;
    }
    let ghost views = intents_view(intents@);
    let ghost id = client.player_id@;
    let ghost start = frames_view(client.outbound@);
    let mut i: usize = 0;
    assert(start + frames_of(views.take(0), id) =~= start);
    while i < intents.len()
        invariant
            i <= intents.len(),
            views == intents_view(intents@),
            client.is_connected(),
            client.player_id == old(client).player_id,
            id == client.player_id@,
            client.inbound == old(client).inbound,
            i == 0 ==> *client == *old(client),
            i > 0 ==> client.state == ConnectionState::Joined,
            frames_view(client.outbound@) == start + frames_of(views.take(i as int), id),
        decreases intents.len() - i,
    {
        client.send(&intents[i]);
        assert(views.take(i + 1) =~= views.take(i as int).push(intents@[i as int]@));
        assert(start + frames_of(views.take(i + 1), id) =~= (start + frames_of(
            views.take(i as int),
            id,
        )).push(frame_of(intents@[i as int]@, id)));
        i += 1;
    }
    assert(views.take(intents@.len() as int) =~= views);
    true
}

/// Reports the positions of the local player that changed this tick, one
/// move per position, in order.
pub fn send_player_position_udp(client: &mut NetworkClient, positions: &Vec<(Number, Number)>) -> (queued:
    bool)
    ensures
        queued == old(client).is_connected(),
        final(client).player_id == old(client).player_id,
        final(client).inbound == old(client).inbound,
        !queued || positions@.len() == 0 ==> *final(client) == *old(client),
        queued && positions@.len() > 0 ==> final(client).state == ConnectionState::Joined,
        queued ==> frames_view(final(client).outbound@) == frames_view(old(client).outbound@)
            + frames_of(moves_of(positions@), old(client).player_id@),
{
    let mut moves: Vec<OutboundIntent> = Vec::new();
    let mut i: usize = 0;
    assert(intents_view(moves@) =~= moves_of(positions@.take(0)));
    while i < positions.len()
        invariant
            i <= positions.len(),
            moves@.len() == i,
            intents_view(moves@) == moves_of(positions@.take(i as int)),
        decreases positions.len() - i,
    {
        let ghost before = moves@;
        let made = OutboundIntent::Move { x: positions[i].0.clone(), y: positions[i].1.clone() };
        moves.push(made);
        assert(positions@.take(i + 1) =~= positions@.take(i as int).push(positions@[i as int]));
        assert(intents_view(moves@) =~= intents_view(before).push(made@));
        assert(moves_of(positions@.take(i + 1)) =~= moves_of(positions@.take(i as int)).push(made@));
        i += 1;
    }
    assert(positions@.take(positions@.len() as int) =~= positions@);
    send_all(client, &moves)
}

/// Sends one shot in the aimed direction when the button was pressed this
/// tick and there is something to aim at.
pub fn send_shoot_action_udp(
    client: &mut NetworkClient,
    just_pressed: bool,
    direction: Option<(Number, Number)>,
) -> (queued: bool)
    ensures
        queued == (just_pressed && direction.is_some() && old(client).is_connected()),
        final(client).player_id == old(client).player_id,
        final(client).inbound == old(client).inbound,
        !queued ==> *final(client) == *old(client),
        queued ==> final(client).state == ConnectionState::Joined,
        queued ==> frames_view(final(client).outbound@) == frames_view(old(client).outbound@).push(
            frame_of(
                IntentView::Shoot { dx: direction.unwrap().0@, dy: direction.unwrap().1@ },
                old(client).player_id@,
            ),
        ),
{
    if !just_pressed {
        return false;
    }
    match direction {
        Some((dx, dy)) => client.send(&OutboundIntent::Shoot { dx, dy }),
        None => false,
    }
}

/// Sends the diagnostic requests whose keys were pressed this tick.
pub fn send_test_requests(client: &mut NetworkClient, keys: RequestKeys, now: i64) -> (queued: bool)
    ensures
        queued == old(client).is_connected(),
        final(client).player_id == old(client).player_id,
        final(client).inbound == old(client).inbound,
        !queued || requests_of(keys, now).len() == 0 ==> *final(client) == *old(client),
        queued && requests_of(keys, now).len() > 0 ==> final(client).state
            == ConnectionState::Joined,
        queued ==> frames_view(final(client).outbound@) == frames_view(old(client).outbound@)
            + frames_of(requests_of(keys, now), old(client).player_id@),
{
    let mut requests: Vec<OutboundIntent> = Vec::new();
    if keys.ping {
        requests.push(OutboundIntent::Ping { client_ts: now });
    }
    if keys.player_info {
        requests.push(OutboundIntent::InfoRequest);
    }
    if keys.game_state {
        requests.push(OutboundIntent::GameStateRequest);
    }
    assert(intents_view(requests@) =~= requests_of(keys, now));
    send_all(client, &requests)
}

/// Drains the handle and applies what came, in arrival order; the reports
/// are for the log.
pub fn handle_udp_messages(client: &mut NetworkClient, game_state: &mut GameState) -> (reports: Vec<
    Diagnostic,
>)
    requires
        old(game_state).wf(),
    ensures
        final(game_state).wf(),
        final(client).player_id == old(client).player_id,
        final(client).outbound == old(client).outbound,
        !old(client).is_connected() || old(client).inbound@.len() == 0 ==> {
            &&& reports@.len() == 0
            &&& *final(client) == *old(client)
            &&& final(game_state)@ == old(game_state)@
        },
        old(client).is_connected() && old(client).inbound@.len() > 0 ==> {
            let events = events_of(frames_view(old(client).inbound@));
            &&& final(client).inbound@.len() == 0
            &&& final(client).state == ConnectionState::Joined
            &&& final(game_state)@ == applied_upto(old(game_state)@, events, events.len() as int)
            &&& reports@.len() == events.len()
            &&& forall|i: int| 0 <= i < events.len() ==> #[trigger] reports@[i] == diagnostic_of(events[i])
        },
{
    let events = client.drain();
    game_state.apply_all(&events)
}

} // verus!
