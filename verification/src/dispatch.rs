//! The message dispatcher: applies drained events to the local view of the
//! game, strictly in order, the later event winning for a key.

use crate::events::{
    clone_text, players_view, text_view, tiles_view, EventView, InboundEvent, PaintedTile,
    PaintedTileView, RemotePlayerState, RemotePlayerView,
};
use crate::json::{text_eq, Number, NumberView};
use crate::table::{
    distinct_keys, has_key, index_of, lemma_table_at, lemma_table_empty, lemma_table_push,
    lemma_table_update, table,
};
use vstd::prelude::*;

verus! {

/// The local view of the shared game: the remote players by identity and
/// the painted tiles by grid coordinates.
pub struct GameState {
    players: Vec<RemotePlayerState>,
    painted_tiles: Vec<PaintedTile>,
    acknowledged: bool,
}

/// What the local view holds of one remote player.
pub struct PlayerRecord {
    pub x: NumberView,
    pub y: NumberView,
    pub health: Option<i32>,
    pub team: Option<Seq<char>>,
}

/// The mathematical value of a [`GameState`].
pub struct GameStateView {
    /// What is known of each remote player, by identity.
    pub players: Map<Seq<char>, PlayerRecord>,
    /// The colour of each painted tile.
    pub painted_tiles: Map<(i32, i32), Seq<char>>,
    /// Whether the server has acknowledged the join.
    pub acknowledged: bool,
}

/// What the dispatcher reports of an event, for the log.
#[derive(Clone, Copy, Debug, PartialEq, Eq, Structural)]
pub enum Diagnostic {
    /// The server acknowledged the join.
    Acknowledged,
    /// The event changed the local view.
    Updated,
    /// A pong came back: the round trip estimate, server time less client
    /// time.
    RoundTrip { rtt: i128 },
    /// An answer to a request, to be shown.
    Info,
    /// The server reported an error; the connection is not touched.
    Warning,
    /// An event of no known kind, ignored.
    Ignored,
}

/// What a player's state says of the player.
pub open spec fn record_of(player: RemotePlayerView) -> PlayerRecord {
    PlayerRecord { x: player.x, y: player.y, health: player.health, team: player.team }
}

/// The players as entries of a table.
pub open spec fn player_entries(players: Seq<RemotePlayerState>) -> Seq<(Seq<char>, PlayerRecord)> {
    players.map_values(|p: RemotePlayerState| (p.id@, record_of(p@)))
}

/// The players after one of them has moved: a known player keeps health
/// and team, a new one has neither yet.
pub open spec fn moved(
    players: Map<Seq<char>, PlayerRecord>,
    id: Seq<char>,
    x: NumberView,
    y: NumberView,
) -> Map<Seq<char>, PlayerRecord> {
    if players.dom().contains(id) {
        players.insert(id, PlayerRecord { x, y, health: players[id].health, team: players[id].team })
    } else {
        players.insert(id, PlayerRecord { x, y, health: None, team: None })
    }
}

/// The tiles as entries of a table.
pub open spec fn tile_entries(tiles: Seq<PaintedTile>) -> Seq<((i32, i32), Seq<char>)> {
    tiles.map_values(|t: PaintedTile| (t.tile, t.color@))
}

/// The players of a snapshot's first `n` entries; a later entry wins.
pub open spec fn snapshot_players(players: Seq<RemotePlayerView>, n: int) -> Map<
    Seq<char>,
    PlayerRecord,
>
    decreases n,
{
    if n <= 0 {
        Map::empty()
    } else {
        snapshot_players(players, n - 1).insert(players[n - 1].id, record_of(players[n - 1]))
    }
}

/// The tiles of a snapshot's first `n` entries; a later entry wins.
pub open spec fn snapshot_tiles(tiles: Seq<PaintedTileView>, n: int) -> Map<(i32, i32), Seq<char>>
    decreases n,
{
    if n <= 0 {
        Map::empty()
    } else {
        snapshot_tiles(tiles, n - 1).insert(tiles[n - 1].tile, tiles[n - 1].color)
    }
}

/// The state after an event.
pub open spec fn applied(state: GameStateView, event: EventView) -> GameStateView {
    match event {
        EventView::Connected => GameStateView {
            players: state.players,
            painted_tiles: state.painted_tiles,
            acknowledged: true,
        },
        EventView::PlayerUpdate { player_id, x, y } => GameStateView {
            players: moved(state.players, player_id, x, y),
            painted_tiles: state.painted_tiles,
            acknowledged: state.acknowledged,
        },
        EventView::PaintUpdate { tile, color } => GameStateView {
            players: state.players,
            painted_tiles: state.painted_tiles.insert(tile, color),
            acknowledged: state.acknowledged,
        },
        EventView::GameStateSnapshot { players, painted_tiles } => GameStateView {
            players: snapshot_players(players, players.len() as int),
            painted_tiles: snapshot_tiles(painted_tiles, painted_tiles.len() as int),
            acknowledged: state.acknowledged,
        },
        _ => state,
    }
}

/// The state after the first `n` events, applied in order.
pub open spec fn applied_upto(state: GameStateView, events: Seq<EventView>, n: int) -> GameStateView
    decreases n,
{
    if n <= 0 {
        state
    } else {
        applied(applied_upto(state, events, n - 1), events[n - 1])
    }
}

/// What the dispatcher reports of an event.
pub open spec fn diagnostic_of(event: EventView) -> Diagnostic {
    match event {
        EventView::Connected => Diagnostic::Acknowledged,
        EventView::PlayerUpdate { .. } => Diagnostic::Updated,
        EventView::PaintUpdate { .. } => Diagnostic::Updated,
        EventView::GameStateSnapshot { .. } => Diagnostic::Updated,
        EventView::Pong { client_ts, server_ts } => Diagnostic::RoundTrip {
            rtt: (server_ts - client_ts) as i128,
        },
        EventView::PlayerInfoResponse { .. } => Diagnostic::Info,
        EventView::GameStateResponse { .. } => Diagnostic::Info,
        EventView::ServerError { .. } => Diagnostic::Warning,
        EventView::Unknown { .. } => Diagnostic::Ignored,
    }
}

/// The round trip estimate of a pong: server time less client time.
pub fn round_trip(client_ts: i64, server_ts: i64) -> (rtt: i128)
    ensures
        rtt == server_ts - client_ts,
{
    let server: i128 = server_ts as i128;
    let client: i128 = client_ts as i128;
    server - client
}

impl View for GameState {
    type V = GameStateView;

    closed spec fn view(&self) -> GameStateView {
        GameStateView {
            players: table(player_entries(self.players@)),
            painted_tiles: table(tile_entries(self.painted_tiles@)),
            acknowledged: self.acknowledged,
        }
    }
}

impl GameState {
    /// No player and no tile is held twice.
    pub closed spec fn wf(&self) -> bool {
        &&& distinct_keys(player_entries(self.players@))
        &&& distinct_keys(tile_entries(self.painted_tiles@))
    }

    /// A view of the game with no players and no paint.
    pub fn new() -> (state: Self)
        ensures
            state.wf(),
            state@.players == Map::<Seq<char>, PlayerRecord>::empty(),
            state@.painted_tiles == Map::<(i32, i32), Seq<char>>::empty(),
            !state@.acknowledged,
    {
        let state = GameState { players: Vec::new(), painted_tiles: Vec::new(), acknowledged: false };
        proof {
            lemma_table_empty::<Seq<char>, PlayerRecord>();
            lemma_table_empty::<(i32, i32), Seq<char>>();
            assert(player_entries(state.players@) =~= Seq::empty());
            assert(tile_entries(state.painted_tiles@) =~= Seq::empty());
        }
        state
    }

    /// Whether the server has acknowledged the join.
    pub fn acknowledged(&self) -> (yes: bool)
        ensures
            yes == self@.acknowledged,
    {
        self.acknowledged
    }

    /// How many remote players are known.
    pub fn player_count(&self) -> (count: usize)
        requires
            self.wf(),
        ensures
            count == self@.players.dom().len(),
            self@.players.dom().finite(),
    {
        proof {
            lemma_table_size(player_entries(self.players@));
        }
        self.players.len()
    }

    /// How many tiles are painted.
    pub fn tile_count(&self) -> (count: usize)
        requires
            self.wf(),
        ensures
            count == self@.painted_tiles.dom().len(),
            self@.painted_tiles.dom().finite(),
    {
        proof {
            lemma_table_size(tile_entries(self.painted_tiles@));
        }
        self.painted_tiles.len()
    }

    /// The position of a remote player, if it is known.
    pub fn player_position(&self, id: &str) -> (found: Option<(Number, Number)>)
        requires
            self.wf(),
        ensures
            found.is_some() == self@.players.dom().contains(id@),
            found matches Some(p) ==> self@.players[id@].x == p.0@ && self@.players[id@].y == p.1@,
    {
        let ghost entries = player_entries(self.players@);
        let mut i: usize = 0;
        while i < self.players.len()
            invariant
                i <= self.players.len(),
                self.wf(),
                entries == player_entries(self.players@),
                forall|j: int| 0 <= j < i ==> (#[trigger] entries[j]).0 != id@,
            decreases self.players.len() - i,
        {
            if text_eq(self.players[i].id.as_str(), id) {
                proof {
                    lemma_table_at(entries, i as int);
                }
                return Some((self.players[i].x.clone(), self.players[i].y.clone()));
            }
            i += 1;
        }
        None
    }

    /// The colour of a tile, if it is painted.
    pub fn tile_color(&self, tile: (i32, i32)) -> (found: Option<String>)
        requires
            self.wf(),
        ensures
            found.is_some() == self@.painted_tiles.dom().contains(tile),
            found matches Some(c) ==> self@.painted_tiles[tile] == c@,
    {
        let ghost entries = tile_entries(self.painted_tiles@);
        let mut i: usize = 0;
        while i < self.painted_tiles.len()
            invariant
                i <= self.painted_tiles.len(),
                self.wf(),
                entries == tile_entries(self.painted_tiles@),
                forall|j: int| 0 <= j < i ==> (#[trigger] entries[j]).0 != tile,
            decreases self.painted_tiles.len() - i,
        {
            let held = self.painted_tiles[i].tile;
            if held.0 == tile.0 && held.1 == tile.1 {
                proof {
                    lemma_table_at(entries, i as int);
                }
                return Some(self.painted_tiles[i].color.clone());
            }
            i += 1;
        }
        None
    }

    /// What is known of a remote player, if it is known.
    pub fn player(&self, id: &str) -> (found: Option<RemotePlayerState>)
        requires
            self.wf(),
        ensures
            found.is_some() == self@.players.dom().contains(id@),
            found matches Some(p) ==> p.id@ == id@ && self@.players[id@] == record_of(p@),
    {
        let ghost entries = player_entries(self.players@);
        let mut i: usize = 0;
        while i < self.players.len()
            invariant
                i <= self.players.len(),
                self.wf(),
                entries == player_entries(self.players@),
                forall|j: int| 0 <= j < i ==> (#[trigger] entries[j]).0 != id@,
            decreases self.players.len() - i,
        {
            if text_eq(self.players[i].id.as_str(), id) {
                proof {
                    lemma_table_at(entries, i as int);
                }
                return Some(self.players[i].clone());
            }
            i += 1;
        }
        None
    }

    fn find_player(&self, id: &str) -> (at: Option<usize>)
        ensures
            at matches Some(i) ==> i < self.players@.len() && self.players@[i as int].id@ == id@,
            at is None ==> !has_key(player_entries(self.players@), id@),
    {
        let ghost entries = player_entries(self.players@);
        let mut i: usize = 0;
        while i < self.players.len()
            invariant
                i <= self.players.len(),
                entries == player_entries(self.players@),
                forall|j: int| 0 <= j < i ==> (#[trigger] entries[j]).0 != id@,
            decreases self.players.len() - i,
        {
            if text_eq(self.players[i].id.as_str(), id) {
                return Some(i);
            }
            i += 1;
        }
        proof {
            if has_key(entries, id@) {
                let at = index_of(entries, id@);
                assert(entries[at].0 == id@);
            }
        }
        None
    }

    /// Holds a player as given, in place of what was known of that player.
    pub fn put_player(&mut self, player: RemotePlayerState)
        requires
            old(self).wf(),
        ensures
            final(self).wf(),
            final(self)@ == (GameStateView {
                players: old(self)@.players.insert(player.id@, record_of(player@)),
                painted_tiles: old(self)@.painted_tiles,
                acknowledged: old(self)@.acknowledged,
            }),
    {
        let ghost entries = player_entries(self.players@);
        match self.find_player(player.id.as_str()) {
            Some(i) => {
                self.players.set(i, player);
                proof {
                    lemma_table_update(entries, i as int, record_of(player@));
                    assert(player_entries(self.players@) =~= entries.update(
                        i as int,
                        (player.id@, record_of(player@)),
                    ));
                }
            },
            None => {
                self.players.push(player);
                proof {
                    lemma_table_push(entries, player.id@, record_of(player@));
                    assert(player_entries(self.players@) =~= entries.push(
                        (player.id@, record_of(player@)),
                    ));
                }
            },
        }
    }

    /// Sets the position of a player. A known player keeps health and team;
    /// a new one is created with neither.
    pub fn upsert_player(&mut self, id: &str, x: &Number, y: &Number)
        requires
            old(self).wf(),
        ensures
            final(self).wf(),
            final(self)@ == applied(
                old(self)@,
                EventView::PlayerUpdate { player_id: id@, x: x@, y: y@ },
            ),
    {
        let ghost entries = player_entries(self.players@);
        let (health, team) = match self.find_player(id) {
            Some(i) => {
                proof {
                    lemma_table_at(entries, i as int);
                }
                (self.players[i].health, clone_text(&self.players[i].team))
            },
            None => (None, None),
        };
        assert(moved(self@.players, id@, x@, y@) == self@.players.insert(
            id@,
            PlayerRecord { x: x@, y: y@, health, team: text_view(team) },
        ));
        self.put_player(
            RemotePlayerState { id: String::from_str(id), x: x.clone(), y: y.clone(), health, team },
        );
    }

    /// Sets the colour of a tile, whatever was predicted for it.
    pub fn paint_tile(&mut self, tile: (i32, i32), color: &str)
        requires
            old(self).wf(),
        ensures
            final(self).wf(),
            final(self)@ == applied(old(self)@, EventView::PaintUpdate { tile, color: color@ }),
    {
        let ghost entries = tile_entries(self.painted_tiles@);
        let painted = PaintedTile { tile, color: String::from_str(color) };
        let mut i: usize = 0;
        while i < self.painted_tiles.len()
            invariant
                i <= self.painted_tiles.len(),
                *self == *old(self),
                self.wf(),
                entries == tile_entries(self.painted_tiles@),
                distinct_keys(entries),
                painted@ == (PaintedTileView { tile, color: color@ }),
                forall|j: int| 0 <= j < i ==> (#[trigger] entries[j]).0 != tile,
            decreases self.painted_tiles.len() - i,
        {
            let held = self.painted_tiles[i].tile;
            if held.0 == tile.0 && held.1 == tile.1 {
                self.painted_tiles.set(i, painted);
                proof {
                    lemma_table_update(entries, i as int, color@);
                    assert(tile_entries(self.painted_tiles@) =~= entries.update(
                        i as int,
                        (tile, color@),
                    ));
                }
                return ;
            }
            i += 1;
        }
        self.painted_tiles.push(painted);
        proof {
            if has_key(entries, tile) {
                let at = index_of(entries, tile);
                assert(entries[at].0 == tile);
            }
            lemma_table_push(entries, tile, color@);
            assert(tile_entries(self.painted_tiles@) =~= entries.push((tile, color@)));
        }
    }

    /// Replaces all players and all tiles by those of a snapshot.
    pub fn replace_all(&mut self, players: &Vec<RemotePlayerState>, painted_tiles: &Vec<PaintedTile>)
        requires
            old(self).wf(),
        ensures
            final(self).wf(),
            final(self)@ == applied(
                old(self)@,
                EventView::GameStateSnapshot {
                    players: players_view(players@),
                    painted_tiles: tiles_view(painted_tiles@),
                },
            ),
    {
        self.players = Vec::new();
        self.painted_tiles = Vec::new();
        proof {
            lemma_table_empty::<Seq<char>, PlayerRecord>();
            lemma_table_empty::<(i32, i32), Seq<char>>();
            assert(player_entries(self.players@) =~= Seq::empty());
            assert(tile_entries(self.painted_tiles@) =~= Seq::empty());
        }
        let ghost player_views = players_view(players@);
        let ghost tile_views = tiles_view(painted_tiles@);
        let mut i: usize = 0;
        while i < players.len()
            invariant
                i <= players.len(),
                self.wf(),
                player_views == players_view(players@),
                self@.players == snapshot_players(player_views, i as int),
                self@.painted_tiles == Map::<(i32, i32), Seq<char>>::empty(),
                self@.acknowledged == old(self)@.acknowledged,
            decreases players.len() - i,
        {
            self.put_player(players[i].clone());
            i += 1;
        }
        let mut k: usize = 0;
        while k < painted_tiles.len()
            invariant
                k <= painted_tiles.len(),
                self.wf(),
                tile_views == tiles_view(painted_tiles@),
                self@.players == snapshot_players(player_views, player_views.len() as int),
                self@.painted_tiles == snapshot_tiles(tile_views, k as int),
                self@.acknowledged == old(self)@.acknowledged,
            decreases painted_tiles.len() - k,
        {
            self.paint_tile(painted_tiles[k].tile, painted_tiles[k].color.as_str());
            k += 1;
        }
    }

    /// Applies one event and reports on it.
    pub fn apply(&mut self, event: &InboundEvent) -> (report: Diagnostic)
        requires
            old(self).wf(),
        ensures
            final(self).wf(),
            final(self)@ == applied(old(self)@, event@),
            report == diagnostic_of(event@),
    {
        match event {
            InboundEvent::Connected => {
                self.acknowledged = true;
                Diagnostic::Acknowledged
            },
            InboundEvent::PlayerUpdate { player_id, x, y } => {
                self.upsert_player(player_id.as_str(), x, y);
                Diagnostic::Updated
            },
            InboundEvent::PaintUpdate { tile, color } => {
                self.paint_tile(*tile, color.as_str());
                Diagnostic::Updated
            },
            InboundEvent::GameStateSnapshot { players, painted_tiles } => {
                self.replace_all(players, painted_tiles);
                Diagnostic::Updated
            },
            InboundEvent::Pong { client_ts, server_ts } => Diagnostic::RoundTrip {
                rtt: round_trip(*client_ts, *server_ts),
            },
            InboundEvent::PlayerInfoResponse { .. } => Diagnostic::Info,
            InboundEvent::GameStateResponse { .. } => Diagnostic::Info,
            InboundEvent::ServerError { .. } => Diagnostic::Warning,
            InboundEvent::Unknown { .. } => Diagnostic::Ignored,
        }
    }

    /// Applies events strictly in order and reports on each.
    pub fn apply_all(&mut self, events: &Vec<InboundEvent>) -> (reports: Vec<Diagnostic>)
        requires
            old(self).wf(),
        ensures
            final(self).wf(),
            final(self)@ == applied_upto(
                old(self)@,
                events@.map_values(|e: InboundEvent| e@),
                events@.len() as int,
            ),
            reports@.len() == events@.len(),
            forall|i: int| 0 <= i < events@.len() ==> #[trigger] reports@[i] == diagnostic_of(events@[i]@),
    {
        let ghost views = events@.map_values(|e: InboundEvent| e@);
        let mut reports: Vec<Diagnostic> = Vec::new();
        let mut i: usize = 0;
        while i < events.len()
            invariant
                i <= events.len(),
                self.wf(),
                views == events@.map_values(|e: InboundEvent| e@),
                self@ == applied_upto(old(self)@, views, i as int),
                reports@.len() == i,
                forall|j: int| 0 <= j < i ==> #[trigger] reports@[j] == diagnostic_of(events@[j]@),
            decreases events.len() - i,
        {
            let report = self.apply(&events[i]);
            reports.push(report);
            i += 1;
        }
        reports
    }
}

/// A table of distinct keys has as many keys as entries.
pub proof fn lemma_table_size<K, V>(entries: Seq<(K, V)>)
    requires
        distinct_keys(entries),
    ensures
        table(entries).dom().finite(),
        table(entries).dom().len() == entries.len(),
    decreases entries.len(),
{
    if entries.len() == 0 {
        assert(table(entries).dom() =~= Set::<K>::empty());
    } else {
        let last = entries.last();
        let front = entries.drop_last();
        assert forall|i: int, j: int| 0 <= i < j < front.len() implies (#[trigger] front[i]).0 != (
        #[trigger] front[j]).0 by {
            assert(entries[i].0 != entries[j].0);
        }
        lemma_table_size(front);
        if has_key(front, last.0) {
            let at = index_of(front, last.0);
            assert(entries[at].0 != entries[entries.len() - 1].0);
        }
        lemma_table_push(front, last.0, last.1);
        assert(front.push((last.0, last.1)) =~= entries);
        assert(table(entries).dom() =~= table(front).dom().insert(last.0));
    }
}

/// Last write wins: after two updates of one player, applied in order, the
/// state is what the second update alone would have left, and the player
/// stands where the second update says.
pub proof fn lemma_last_update_wins(
    state: GameStateView,
    player_id: Seq<char>,
    first: (NumberView, NumberView),
    second: (NumberView, NumberView),
)
    ensures
        applied(
            applied(state, EventView::PlayerUpdate { player_id, x: first.0, y: first.1 }),
            EventView::PlayerUpdate { player_id, x: second.0, y: second.1 },
        ) == applied(state, EventView::PlayerUpdate { player_id, x: second.0, y: second.1 }),
        applied(
            applied(state, EventView::PlayerUpdate { player_id, x: first.0, y: first.1 }),
            EventView::PlayerUpdate { player_id, x: second.0, y: second.1 },
        ).players[player_id].x == second.0,
        applied(
            applied(state, EventView::PlayerUpdate { player_id, x: first.0, y: first.1 }),
            EventView::PlayerUpdate { player_id, x: second.0, y: second.1 },
        ).players[player_id].y == second.1,
{
    let once = applied(state, EventView::PlayerUpdate { player_id, x: second.0, y: second.1 });
    let twice = applied(
        applied(state, EventView::PlayerUpdate { player_id, x: first.0, y: first.1 }),
        EventView::PlayerUpdate { player_id, x: second.0, y: second.1 },
    );
    assert(twice.players =~= once.players);
}

/// Last write wins for paint too: after two updates of one tile the tile
/// has the second colour, as if the first had never come.
pub proof fn lemma_last_paint_wins(
    state: GameStateView,
    tile: (i32, i32),
    first: Seq<char>,
    second: Seq<char>,
)
    ensures
        applied(
            applied(state, EventView::PaintUpdate { tile, color: first }),
            EventView::PaintUpdate { tile, color: second },
        ) == applied(state, EventView::PaintUpdate { tile, color: second }),
        applied(state, EventView::PaintUpdate { tile, color: second }).painted_tiles[tile] == second,
{
    let once = applied(state, EventView::PaintUpdate { tile, color: second });
    let twice = applied(
        applied(state, EventView::PaintUpdate { tile, color: first }),
        EventView::PaintUpdate { tile, color: second },
    );
    assert(twice.painted_tiles =~= once.painted_tiles);
}

/// An update that follows a snapshot is applied whatever the snapshot said
/// of the player: nothing dates the two, so the update is never turned away
/// as stale.
pub proof fn lemma_update_after_snapshot(
    state: GameStateView,
    players: Seq<RemotePlayerView>,
    painted_tiles: Seq<PaintedTileView>,
    player_id: Seq<char>,
    x: NumberView,
    y: NumberView,
)
    ensures
        ({
            let after = applied(
                applied(state, EventView::GameStateSnapshot { players, painted_tiles }),
                EventView::PlayerUpdate { player_id, x, y },
            );
            &&& after.players == moved(
                snapshot_players(players, players.len() as int),
                player_id,
                x,
                y,
            )
            &&& after.players.dom().contains(player_id)
            &&& after.players[player_id].x == x
            &&& after.players[player_id].y == y
            &&& after.painted_tiles == snapshot_tiles(painted_tiles, painted_tiles.len() as int)
        }),
{
}

} // verus!
