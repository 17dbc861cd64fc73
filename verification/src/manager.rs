//! The manager of a connection over a streaming transport.

use crate::client::frame_of;
use crate::encode::{encode, IntentView, OutboundIntent};
use crate::json::Number;
use crate::transport::{join_intent, join_view};
use vstd::prelude::*;

verus! {

/// Knows the server and makes the frames that go to it; the caller owns the
/// stream and writes them.
pub struct NetworkManager {
    server_url: String,
}

impl NetworkManager {
    /// The address of the server.
    pub closed spec fn url(&self) -> Seq<char> {
        self.server_url@
    }

    /// A manager for the server at `server_url`.
    pub fn new(server_url: String) -> (manager: Self)
        ensures
            manager.url() == server_url@,
    {
        Self { server_url }
    }

    /// The address of the server.
    pub fn server_url(&self) -> (url: &str)
        ensures
            url@ == self.url(),
    {
        self.server_url.as_str()
    }

    /// The frame that opens the connection for the player `player_id`.
    pub fn join_frame(&self, player_id: &str) -> (frame: String)
        ensures
            frame@ == frame_of(join_view(), player_id@),
    {
        let join = join_intent();
        encode(&join, player_id)
    }

    /// The frame that reports a move to `position`.
    pub fn send_player_move(&mut self, position: (Number, Number)) -> (frame: String)
        ensures
            final(self).url() == old(self).url(),
            frame@ == frame_of(
                IntentView::Move { x: position.0@, y: position.1@ },
                Seq::<char>::empty(),
            ),
    {
        let made = OutboundIntent::Move { x: position.0, y: position.1 };
        let nobody = String::new();
        encode(&made, nobody.as_str())
    }

    /// The frame that reports a shot in `direction`.
    pub fn send_shoot(&mut self, direction: (Number, Number)) -> (frame: String)
        ensures
            final(self).url() == old(self).url(),
            frame@ == frame_of(
                IntentView::Shoot { dx: direction.0@, dy: direction.1@ },
                Seq::<char>::empty(),
            ),
    {
        let made = OutboundIntent::Shoot { dx: direction.0, dy: direction.1 };
        let nobody = String::new();
        encode(&made, nobody.as_str())
    }
}

} // verus!
