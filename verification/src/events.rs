//! The events that the server sends, as the dispatcher sees them.

use crate::json::{Number, NumberView};
use vstd::prelude::*;

verus! {

/// Why a frame could not be decoded.
#[derive(Clone, Copy, Debug, PartialEq, Eq, Structural)]
pub enum DecodeError {
    /// The frame is no JSON, or it has no text member `type`.
    Malformed,
}

/// A remote player: the identity, the position, and the health and the
/// team as far as the server has told them.
#[derive(Debug, PartialEq, Eq)]
pub struct RemotePlayerState {
    pub id: String,
    pub x: Number,
    pub y: Number,
    pub health: Option<i32>,
    pub team: Option<String>,
}

pub struct RemotePlayerView {
    pub id: Seq<char>,
    pub x: NumberView,
    pub y: NumberView,
    pub health: Option<i32>,
    pub team: Option<Seq<char>>,
}

/// The view of an optional text.
pub open spec fn text_view(text: Option<String>) -> Option<Seq<char>> {
    match text {
        Some(t) => Some(t@),
        None => None,
    }
}

/// A copy of an optional text.
pub fn clone_text(text: &Option<String>) -> (copy: Option<String>)
    ensures
        text_view(copy) == text_view(*text),
{
    match text {
        Some(t) => Some(t.clone()),
        None => None,
    }
}

impl View for RemotePlayerState {
    type V = RemotePlayerView;

    open spec fn view(&self) -> RemotePlayerView {
        RemotePlayerView {
            id: self.id@,
            x: self.x@,
            y: self.y@,
            health: self.health,
            team: text_view(self.team),
        }
    }
}

impl Clone for RemotePlayerState {
    fn clone(&self) -> (copy: Self)
        ensures
            copy@ == self@,
    {
        RemotePlayerState {
            id: self.id.clone(),
            x: self.x.clone(),
            y: self.y.clone(),
            health: self.health,
            team: clone_text(&self.team),
        }
    }
}

/// A painted tile: its grid coordinates and its colour.
#[derive(Debug, PartialEq, Eq)]
pub struct PaintedTile {
    pub tile: (i32, i32),
    pub color: String,
}

pub struct PaintedTileView {
    pub tile: (i32, i32),
    pub color: Seq<char>,
}

impl View for PaintedTile {
    type V = PaintedTileView;

    open spec fn view(&self) -> PaintedTileView {
        PaintedTileView { tile: self.tile, color: self.color@ }
    }
}

impl Clone for PaintedTile {
    fn clone(&self) -> (copy: Self)
        ensures
            copy@ == self@,
    {
        PaintedTile { tile: self.tile, color: self.color.clone() }
    }
}

/// One client in the server's answer to a game state request.
#[derive(Debug, PartialEq, Eq)]
pub struct ClientInfo {
    pub ip: String,
    pub port: i64,
    pub team: String,
}

pub struct ClientInfoView {
    pub ip: Seq<char>,
    pub port: i64,
    pub team: Seq<char>,
}

impl View for ClientInfo {
    type V = ClientInfoView;

    open spec fn view(&self) -> ClientInfoView {
        ClientInfoView { ip: self.ip@, port: self.port, team: self.team@ }
    }
}

/// The views of a sequence of players.
pub open spec fn players_view(players: Seq<RemotePlayerState>) -> Seq<RemotePlayerView> {
    players.map_values(|p: RemotePlayerState| p@)
}

/// The views of a sequence of tiles.
pub open spec fn tiles_view(tiles: Seq<PaintedTile>) -> Seq<PaintedTileView> {
    tiles.map_values(|t: PaintedTile| t@)
}

/// The views of a sequence of clients.
pub open spec fn clients_view(clients: Seq<ClientInfo>) -> Seq<ClientInfoView> {
    clients.map_values(|c: ClientInfo| c@)
}

/// What one inbound frame says.
#[derive(Debug, PartialEq, Eq)]
pub enum InboundEvent {
    Connected,
    PlayerUpdate { player_id: String, x: Number, y: Number },
    PaintUpdate { tile: (i32, i32), color: String },
    GameStateSnapshot { players: Vec<RemotePlayerState>, painted_tiles: Vec<PaintedTile> },
    Pong { client_ts: i64, server_ts: i64 },
    PlayerInfoResponse { player_id: String, connected_clients: i64 },
    GameStateResponse { total_clients: i64, clients: Vec<ClientInfo> },
    ServerError { message: String },
    Unknown { raw: String },
}

pub enum EventView {
    Connected,
    PlayerUpdate { player_id: Seq<char>, x: NumberView, y: NumberView },
    PaintUpdate { tile: (i32, i32), color: Seq<char> },
    GameStateSnapshot { players: Seq<RemotePlayerView>, painted_tiles: Seq<PaintedTileView> },
    Pong { client_ts: i64, server_ts: i64 },
    PlayerInfoResponse { player_id: Seq<char>, connected_clients: i64 },
    GameStateResponse { total_clients: i64, clients: Seq<ClientInfoView> },
    ServerError { message: Seq<char> },
    Unknown { raw: Seq<char> },
}

impl View for InboundEvent {
    type V = EventView;

    open spec fn view(&self) -> EventView {
        match self {
            InboundEvent::Connected => EventView::Connected,
            InboundEvent::PlayerUpdate { player_id, x, y } => EventView::PlayerUpdate {
                player_id: player_id@,
                x: x@,
                y: y@,
            },
            InboundEvent::PaintUpdate { tile, color } => EventView::PaintUpdate {
                tile: *tile,
                color: color@,
            },
            InboundEvent::GameStateSnapshot { players, painted_tiles } => EventView::GameStateSnapshot {
                players: players_view(players@),
                painted_tiles: tiles_view(painted_tiles@),
            },
            InboundEvent::Pong { client_ts, server_ts } => EventView::Pong {
                client_ts: *client_ts,
                server_ts: *server_ts,
            },
            InboundEvent::PlayerInfoResponse { player_id, connected_clients } => EventView::PlayerInfoResponse {
                player_id: player_id@,
                connected_clients: *connected_clients,
            },
            InboundEvent::GameStateResponse { total_clients, clients } => EventView::GameStateResponse {
                total_clients: *total_clients,
                clients: clients_view(clients@),
            },
            InboundEvent::ServerError { message } => EventView::ServerError { message: message@ },
            InboundEvent::Unknown { raw } => EventView::Unknown { raw: raw@ },
        }
    }
}

} // verus!
