//! Decoding of inbound frames into events.
//!
//! Decoding is tolerant: a frame of an unrecognised type, or one of a known
//! type that lacks what the type needs, decodes to `Unknown` and keeps its
//! text; only a frame that is no JSON or has no text member `type` is
//! malformed.

use crate::events::{
    clients_view, players_view, tiles_view, ClientInfo, ClientInfoView, DecodeError, EventView,
    InboundEvent, PaintedTile, PaintedTileView, RemotePlayerState, RemotePlayerView,
};
use crate::json::{
    field_integer, field_of, field_text, integer_of, list_of, nested, nested_number, number_of,
    parse_json, parsed_json, text_eq, text_of, view_of, Json, JsonView,
};
use vstd::prelude::*;

verus! {

/// The small integer that a document holds: one that fits `i32`, as grid
/// coordinates and health do.
pub open spec fn coordinate_of(doc: Option<JsonView>) -> Option<i32> {
    match integer_of(doc) {
        Some(i) => if i32::MIN <= i <= i32::MAX {
            Some(i as i32)
        } else {
            None
        },
        None => None,
    }
}

/// The player that an object describes, if it has a text `player_id` and
/// numbers `position.x` and `position.y`; with the health, where `health`
/// is an integer that fits `i32`, and the team, where `team` is a text.
pub open spec fn player_of(doc: JsonView) -> Option<RemotePlayerView> {
    match (
        text_of(doc.field("player_id"@)),
        number_of(field_of(doc.field("position"@), "x"@)),
        number_of(field_of(doc.field("position"@), "y"@)),
    ) {
        (Some(id), Some(x), Some(y)) => Some(
            RemotePlayerView {
                id,
                x,
                y,
                health: coordinate_of(doc.field("health"@)),
                team: text_of(doc.field("team"@)),
            },
        ),
        _ => None,
    }
}

/// The tile that an object describes, if it has grid coordinates `tile.x`
/// and `tile.y` and a text `color`.
pub open spec fn tile_of(doc: JsonView) -> Option<PaintedTileView> {
    match (
        coordinate_of(field_of(doc.field("tile"@), "x"@)),
        coordinate_of(field_of(doc.field("tile"@), "y"@)),
        text_of(doc.field("color"@)),
    ) {
        (Some(x), Some(y), Some(color)) => Some(PaintedTileView { tile: (x, y), color }),
        _ => None,
    }
}

/// The client that an object describes, if it has a text `ip`, an integer
/// `port` and a text `team`.
pub open spec fn client_of(doc: JsonView) -> Option<ClientInfoView> {
    match (text_of(doc.field("ip"@)), integer_of(doc.field("port"@)), text_of(doc.field("team"@))) {
        (Some(ip), Some(port), Some(team)) => Some(ClientInfoView { ip, port, team }),
        _ => None,
    }
}

/// The players that the first `n` items describe, in order; an item that
/// describes none is passed over.
pub open spec fn players_upto(items: Seq<JsonView>, n: int) -> Seq<RemotePlayerView>
    decreases n,
{
    if n <= 0 {
        Seq::empty()
    } else {
        match player_of(items[n - 1]) {
            Some(p) => players_upto(items, n - 1).push(p),
            None => players_upto(items, n - 1),
        }
    }
}

/// The tiles that the first `n` items describe, in order.
pub open spec fn tiles_upto(items: Seq<JsonView>, n: int) -> Seq<PaintedTileView>
    decreases n,
{
    if n <= 0 {
        Seq::empty()
    } else {
        match tile_of(items[n - 1]) {
            Some(t) => tiles_upto(items, n - 1).push(t),
            None => tiles_upto(items, n - 1),
        }
    }
}

/// The clients that the first `n` items describe, in order.
pub open spec fn clients_upto(items: Seq<JsonView>, n: int) -> Seq<ClientInfoView>
    decreases n,
{
    if n <= 0 {
        Seq::empty()
    } else {
        match client_of(items[n - 1]) {
            Some(c) => clients_upto(items, n - 1).push(c),
            None => clients_upto(items, n - 1),
        }
    }
}

/// The players of an optional array; none where there is no array.
pub open spec fn players_in(doc: Option<JsonView>) -> Seq<RemotePlayerView> {
    match list_of(doc) {
        Some(items) => players_upto(items, items.len() as int),
        None => Seq::empty(),
    }
}

/// The tiles of an optional array; none where there is no array.
pub open spec fn tiles_in(doc: Option<JsonView>) -> Seq<PaintedTileView> {
    match list_of(doc) {
        Some(items) => tiles_upto(items, items.len() as int),
        None => Seq::empty(),
    }
}

/// The clients of an optional array; none where there is no array.
pub open spec fn clients_in(doc: Option<JsonView>) -> Seq<ClientInfoView> {
    match list_of(doc) {
        Some(items) => clients_upto(items, items.len() as int),
        None => Seq::empty(),
    }
}

/// An integer member, or zero where it is missing or no integer.
pub open spec fn integer_or_zero(doc: Option<JsonView>) -> i64 {
    match integer_of(doc) {
        Some(i) => i,
        None => 0,
    }
}

/// The event that a frame of type `kind` stands for. `raw` is the frame's
/// text, which `Unknown` keeps.
pub open spec fn event_of_kind(kind: Seq<char>, doc: JsonView, raw: Seq<char>) -> EventView {
    let unknown = EventView::Unknown { raw };
    if kind == "connected"@ {
        EventView::Connected
    } else if kind == "pong"@ {
        match (integer_of(doc.field("client_timestamp"@)), integer_of(doc.field("server_timestamp"@))) {
            (Some(client_ts), Some(server_ts)) => EventView::Pong { client_ts, server_ts },
            _ => unknown,
        }
    } else if kind == "player_info_response"@ {
        match text_of(doc.field("player_id"@)) {
            Some(player_id) => EventView::PlayerInfoResponse {
                player_id,
                connected_clients: integer_or_zero(doc.field("connected_clients"@)),
            },
            None => unknown,
        }
    } else if kind == "game_state_response"@ {
        EventView::GameStateResponse {
            total_clients: integer_or_zero(doc.field("total_clients"@)),
            clients: clients_in(doc.field("clients"@)),
        }
    } else if kind == "error"@ {
        match text_of(doc.field("message"@)) {
            Some(message) => EventView::ServerError { message },
            None => unknown,
        }
    } else if kind == "game_state"@ {
        EventView::GameStateSnapshot {
            players: players_in(doc.field("players"@)),
            painted_tiles: tiles_in(doc.field("painted_tiles"@)),
        }
    } else if kind == "player_update"@ {
        match player_of(doc) {
            Some(p) => EventView::PlayerUpdate { player_id: p.id, x: p.x, y: p.y },
            None => unknown,
        }
    } else if kind == "paint_update"@ {
        match tile_of(doc) {
            Some(t) => EventView::PaintUpdate { tile: t.tile, color: t.color },
            None => unknown,
        }
    } else {
        unknown
    }
}

/// The outcome of decoding a document whose text was `raw`.
pub open spec fn event_of(doc: JsonView, raw: Seq<char>) -> Result<EventView, DecodeError> {
    match text_of(doc.field("type"@)) {
        Some(kind) => Ok(event_of_kind(kind, doc, raw)),
        None => Err(DecodeError::Malformed),
    }
}

/// The outcome of decoding a frame, given what the frame reads as.
pub open spec fn decoded(doc: Option<JsonView>, raw: Seq<char>) -> Result<EventView, DecodeError> {
    match doc {
        Some(d) => event_of(d, raw),
        None => Err(DecodeError::Malformed),
    }
}

/// The view of a decoding outcome.
pub open spec fn outcome_view(outcome: Result<InboundEvent, DecodeError>) -> Result<
    EventView,
    DecodeError,
> {
    match outcome {
        Ok(event) => Ok(event@),
        Err(e) => Err(e),
    }
}

fn small_integer(doc: Option<&Json>) -> (found: Option<i32>)
    ensures
        found == coordinate_of(view_of(doc)),
{
    let value = match doc {
        Some(d) => d.as_int(),
        None => None,
    };
    match value {
        Some(i) => if -2147483648 <= i && i <= 2147483647 {
            Some(i as i32)
        } else {
            None
        },
        None => None,
    }
}

fn nested_coordinate(doc: &Json, outer: &str, inner: &str) -> (found: Option<i32>)
    ensures
        found == coordinate_of(field_of(doc@.field(outer@), inner@)),
{
    small_integer(nested(doc, outer, inner))
}

fn owned_text(text: Option<&str>) -> (owned: Option<String>)
    ensures
        owned.is_some() == text.is_some(),
        owned matches Some(o) ==> o@ == text.unwrap()@,
{
    match text {
        Some(t) => Some(String::from_str(t)),
        None => None,
    }
}

/// Reads a player out of an object.
pub fn decode_player(doc: &Json) -> (found: Option<RemotePlayerState>)
    ensures
        found.is_some() == player_of(doc@).is_some(),
        found matches Some(p) ==> player_of(doc@) == Some(p@),
{
    let id = field_text(doc, "player_id");
    let x = nested_number(doc, "position", "x");
    let y = nested_number(doc, "position", "y");
    match (id, x, y) {
        (Some(id), Some(x), Some(y)) => Some(
            RemotePlayerState {
                id: String::from_str(id),
                x,
                y,
                health: small_integer(doc.get("health")),
                team: owned_text(field_text(doc, "team")),
            },
        ),
        _ => None,
    }
}

/// Reads a painted tile out of an object.
pub fn decode_tile(doc: &Json) -> (found: Option<PaintedTile>)
    ensures
        found.is_some() == tile_of(doc@).is_some(),
        found matches Some(t) ==> tile_of(doc@) == Some(t@),
{
    let x = nested_coordinate(doc, "tile", "x");
    let y = nested_coordinate(doc, "tile", "y");
    let color = field_text(doc, "color");
    match (x, y, color) {
        (Some(x), Some(y), Some(color)) => Some(
            PaintedTile { tile: (x, y), color: String::from_str(color) },
        ),
        _ => None,
    }
}

/// Reads a client out of an object.
pub fn decode_client(doc: &Json) -> (found: Option<ClientInfo>)
    ensures
        found.is_some() == client_of(doc@).is_some(),
        found matches Some(c) ==> client_of(doc@) == Some(c@),
{
    let ip = field_text(doc, "ip");
    let port = field_integer(doc, "port");
    let team = field_text(doc, "team");
    match (ip, port, team) {
        (Some(ip), Some(port), Some(team)) => Some(
            ClientInfo { ip: String::from_str(ip), port, team: String::from_str(team) },
        ),
        _ => None,
    }
}

fn decode_players(doc: Option<&Json>) -> (players: Vec<RemotePlayerState>)
    ensures
        players_view(players@) == players_in(view_of(doc)),
{
    let mut players: Vec<RemotePlayerState> = Vec::new();
    let list = match doc {
        Some(d) => d.as_list(),
        None => None,
    };
    if let Some(items) = list {
        let ghost views = list_of(view_of(doc))->Some_0;
        let mut i: usize = 0;
        assert(players_view(players@) =~= players_upto(views, 0));
        while i < items.len()
            invariant
                i <= items.len(),
                views.len() == items@.len(),
                forall|j: int| 0 <= j < items@.len() ==> #[trigger] views[j] == items@[j]@,
                players_view(players@) == players_upto(views, i as int),
            decreases items.len() - i,
        {
            let ghost before = players@;
            if let Some(p) = decode_player(&items[i]) {
                players.push(p);
                assert(players_view(players@) =~= players_view(before).push(p@));
            }
            i += 1;
        }
    } else {
        assert(players_view(players@) =~= Seq::empty());
    }
    players
}

fn decode_tiles(doc: Option<&Json>) -> (tiles: Vec<PaintedTile>)
    ensures
        tiles_view(tiles@) == tiles_in(view_of(doc)),
{
    let mut tiles: Vec<PaintedTile> = Vec::new();
    let list = match doc {
        Some(d) => d.as_list(),
        None => None,
    };
    if let Some(items) = list {
        let ghost views = list_of(view_of(doc))->Some_0;
        let mut i: usize = 0;
        assert(tiles_view(tiles@) =~= tiles_upto(views, 0));
        while i < items.len()
            invariant
                i <= items.len(),
                views.len() == items@.len(),
                forall|j: int| 0 <= j < items@.len() ==> #[trigger] views[j] == items@[j]@,
                tiles_view(tiles@) == tiles_upto(views, i as int),
            decreases items.len() - i,
        {
            let ghost before = tiles@;
            if let Some(t) = decode_tile(&items[i]) {
                tiles.push(t);
                assert(tiles_view(tiles@) =~= tiles_view(before).push(t@));
            }
            i += 1;
        }
    } else {
        assert(tiles_view(tiles@) =~= Seq::empty());
    }
    tiles
}

fn decode_clients(doc: Option<&Json>) -> (clients: Vec<ClientInfo>)
    ensures
        clients_view(clients@) == clients_in(view_of(doc)),
{
    let mut clients: Vec<ClientInfo> = Vec::new();
    let list = match doc {
        Some(d) => d.as_list(),
        None => None,
    };
    if let Some(items) = list {
        let ghost views = list_of(view_of(doc))->Some_0;
        let mut i: usize = 0;
        assert(clients_view(clients@) =~= clients_upto(views, 0));
        while i < items.len()
            invariant
                i <= items.len(),
                views.len() == items@.len(),
                forall|j: int| 0 <= j < items@.len() ==> #[trigger] views[j] == items@[j]@,
                clients_view(clients@) == clients_upto(views, i as int),
            decreases items.len() - i,
        {
            let ghost before = clients@;
            if let Some(c) = decode_client(&items[i]) {
                clients.push(c);
                assert(clients_view(clients@) =~= clients_view(before).push(c@));
            }
            i += 1;
        }
    } else {
        assert(clients_view(clients@) =~= Seq::empty());
    }
    clients
}

fn integer_or(doc: &Json, key: &str) -> (value: i64)
    ensures
        value == integer_or_zero(doc@.field(key@)),
{
    match field_integer(doc, key) {
        Some(i) => i,
        None => 0,
    }
}

/// Decodes a frame of a given type.
pub fn decode_kind(kind: &str, doc: &Json, raw: &str) -> (event: InboundEvent)
    ensures
        event@ == event_of_kind(kind@, doc@, raw@),
{
    if text_eq(kind, "connected") {
        InboundEvent::Connected
    } else if text_eq(kind, "pong") {
        match (field_integer(doc, "client_timestamp"), field_integer(doc, "server_timestamp")) {
            (Some(client_ts), Some(server_ts)) => InboundEvent::Pong { client_ts, server_ts },
            _ => InboundEvent::Unknown { raw: String::from_str(raw) },
        }
    } else if text_eq(kind, "player_info_response") {
        match field_text(doc, "player_id") {
            Some(player_id) => InboundEvent::PlayerInfoResponse {
                player_id: String::from_str(player_id),
                connected_clients: integer_or(doc, "connected_clients"),
            },
            None => InboundEvent::Unknown { raw: String::from_str(raw) },
        }
    } else if text_eq(kind, "game_state_response") {
        InboundEvent::GameStateResponse {
            total_clients: integer_or(doc, "total_clients"),
            clients: decode_clients(doc.get("clients")),
        }
    } else if text_eq(kind, "error") {
        match field_text(doc, "message") {
            Some(message) => InboundEvent::ServerError { message: String::from_str(message) },
            None => InboundEvent::Unknown { raw: String::from_str(raw) },
        }
    } else if text_eq(kind, "game_state") {
        InboundEvent::GameStateSnapshot {
            players: decode_players(doc.get("players")),
            painted_tiles: decode_tiles(doc.get("painted_tiles")),
        }
    } else if text_eq(kind, "player_update") {
        match decode_player(doc) {
            Some(p) => InboundEvent::PlayerUpdate { player_id: p.id, x: p.x, y: p.y },
            None => InboundEvent::Unknown { raw: String::from_str(raw) },
        }
    } else if text_eq(kind, "paint_update") {
        match decode_tile(doc) {
            Some(t) => InboundEvent::PaintUpdate { tile: t.tile, color: t.color },
            None => InboundEvent::Unknown { raw: String::from_str(raw) },
        }
    } else {
        InboundEvent::Unknown { raw: String::from_str(raw) }
    }
}

/// Decodes a document that was read from the frame `raw`: malformed where
/// it has no text member `type`, otherwise the event of that type.
pub fn decode_document(doc: &Json, raw: &str) -> (outcome: Result<InboundEvent, DecodeError>)
    ensures
        outcome_view(outcome) == event_of(doc@, raw@),
{
    match field_text(doc, "type") {
        Some(kind) => Ok(decode_kind(kind, doc, raw)),
        None => Err(DecodeError::Malformed),
    }
}

/// Decodes one inbound text frame. A frame that is no JSON, or has no text
/// member `type`, is malformed; every other frame is an event, `Unknown`
/// where its type or shape is not recognised.
pub fn decode(frame: &str) -> (outcome: Result<InboundEvent, DecodeError>)
    ensures
        outcome_view(outcome) == decoded(parsed_json(frame@), frame@),
        outcome is Err ==> outcome == Err::<InboundEvent, DecodeError>(DecodeError::Malformed),
{
    match parse_json(frame) {
        Some(doc) => decode_document(&doc, frame),
        None => Err(DecodeError::Malformed),
    }
}

/// Whether a type is one that the dispatcher knows.
pub open spec fn is_known_kind(kind: Seq<char>) -> bool {
    ||| kind == "connected"@
    ||| kind == "pong"@
    ||| kind == "player_info_response"@
    ||| kind == "game_state_response"@
    ||| kind == "error"@
    ||| kind == "game_state"@
    ||| kind == "player_update"@
    ||| kind == "paint_update"@
}

/// Decoding never fails for good: whatever a frame reads as, the outcome is
/// an event or the one error that lets the frame be dropped, and that error
/// comes exactly for a frame that is no JSON or has no text member `type`.
pub proof fn lemma_decoding_is_total(doc: Option<JsonView>, raw: Seq<char>)
    ensures
        decoded(doc, raw) is Ok || decoded(doc, raw) == Err::<EventView, DecodeError>(
            DecodeError::Malformed,
        ),
        decoded(doc, raw) is Err <==> (doc is None || text_of(doc.unwrap().field("type"@)) is None),
{
}

/// A frame whose type is none of the known ones decodes to `Unknown` and
/// keeps its text.
pub proof fn lemma_unrecognised_is_unknown(doc: JsonView, raw: Seq<char>)
    requires
        text_of(doc.field("type"@)) matches Some(kind) && !is_known_kind(kind),
    ensures
        decoded(Some(doc), raw) == Ok::<EventView, DecodeError>(EventView::Unknown { raw }),
{
}

} // verus!
