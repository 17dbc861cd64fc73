//! The connection handle: the simulation loop's side of the bridge.
//!
//! The handle owns the identity of the local player, the lifecycle state and
//! the two queues. The transport task takes frames off the outbound queue and
//! puts received frames on the inbound queue; the simulation loop sends
//! intents and drains events, and never waits for either.

use crate::decode::{decode, decoded};
use crate::encode::{encode, intent_document, IntentView, OutboundIntent};
use crate::events::{EventView, InboundEvent};
use crate::json::{parsed_json, rendered_json};
use vstd::prelude::*;

verus! {

/// The lifecycle of a connection.
#[derive(Clone, Copy, Debug, PartialEq, Eq, Structural)]
pub enum ConnectionState {
    Disconnected,
    Connecting,
    Joined,
}

/// The connection handle.
#[derive(Debug, PartialEq, Eq)]
pub struct NetworkClient {
    /// The identity of the local player, fixed when the handle is made.
    pub player_id: String,
    pub state: ConnectionState,
    /// Frames that await the transport task, oldest first.
    pub outbound: Vec<String>,
    /// Frames that the transport task received, oldest first.
    pub inbound: Vec<String>,
}

/// The texts of a queue of frames.
pub open spec fn frames_view(frames: Seq<String>) -> Seq<Seq<char>> {
    frames.map_values(|f: String| f@)
}

/// The views of a sequence of events.
pub open spec fn events_view(events: Seq<InboundEvent>) -> Seq<EventView> {
    events.map_values(|e: InboundEvent| e@)
}

/// The frame of an intent: the text that is written for its document.
pub open spec fn frame_of(intent: IntentView, player_id: Seq<char>) -> Seq<char> {
    rendered_json(intent_document(intent, player_id))
}

/// The events that the first `n` frames decode to, in order; a malformed
/// frame is dropped.
pub open spec fn events_upto(frames: Seq<Seq<char>>, n: int) -> Seq<EventView>
    decreases n,
{
    if n <= 0 {
        Seq::empty()
    } else {
        match decoded(parsed_json(frames[n - 1]), frames[n - 1]) {
            Ok(event) => events_upto(frames, n - 1).push(event),
            Err(_) => events_upto(frames, n - 1),
        }
    }
}

/// The events that a queue of frames decodes to.
pub open spec fn events_of(frames: Seq<Seq<char>>) -> Seq<EventView> {
    events_upto(frames, frames.len() as int)
}

impl NetworkClient {
    /// A disconnected handle for the player `player_id`.
    pub fn new(player_id: String) -> (client: Self)
        ensures
            client.player_id@ == player_id@,
            client.state == ConnectionState::Disconnected,
            client.outbound@.len() == 0,
            client.inbound@.len() == 0,
    {
        NetworkClient {
            player_id,
            state: ConnectionState::Disconnected,
            outbound: Vec::new(),
            inbound: Vec::new(),
        }
    }

    /// Whether the handle has a transport: it is connecting or joined.
    pub open spec fn is_connected(&self) -> bool {
        self.state != ConnectionState::Disconnected
    }

    /// Whether the handle has a transport.
    pub fn connected(&self) -> (yes: bool)
        ensures
            yes == self.is_connected(),
    {
        match self.state {
            ConnectionState::Disconnected => false,
            _ => true,
        }
    }

    /// Makes sure that a connection is under way. On a disconnected handle
    /// the queues start empty, the state becomes `Connecting` and the answer
    /// is `true`: the caller starts the transport task. On any other handle
    /// nothing changes and the answer is `false`.
    pub fn ensure_connected(&mut self) -> (spawn: bool)
        ensures
            spawn == !old(self).is_connected(),
            final(self).player_id == old(self).player_id,
            old(self).is_connected() ==> *final(self) == *old(self),
            !old(self).is_connected() ==> {
                &&& final(self).state == ConnectionState::Connecting
                &&& final(self).outbound@.len() == 0
                &&& final(self).inbound@.len() == 0
            },
    {
        if self.connected() {
            return false;
        }
        self.outbound = Vec::new();
        self.inbound = Vec::new();
        self.state = ConnectionState::Connecting;
        true
    }

    /// Sends an intent, best effort. On a connected handle the intent's
    /// frame joins the end of the outbound queue, the handle is joined and
    /// the answer is `true`; on a disconnected one nothing changes and the
    /// answer is `false`.
    pub fn send(&mut self, intent: &OutboundIntent) -> (queued: bool)
        ensures
            queued == old(self).is_connected(),
            final(self).player_id == old(self).player_id,
            final(self).inbound == old(self).inbound,
            !queued ==> *final(self) == *old(self),
            queued ==> {
                &&& final(self).state == ConnectionState::Joined
                &&& frames_view(final(self).outbound@) == frames_view(old(self).outbound@).push(
                    frame_of(intent@, old(self).player_id@),
                )
            },
    {
        if !self.connected() {
            return false;
        }
        let frame = encode(intent, self.player_id.as_str());
        let ghost before = self.outbound@;
        self.outbound.push(frame);
        self.state = ConnectionState::Joined;
        assert(frames_view(self.outbound@) =~= frames_view(before).push(frame@));
        true
    }

    /// Hands the outbound queue to the transport task, oldest frame first,
    /// and leaves it empty.
    pub fn take_outbound(&mut self) -> (frames: Vec<String>)
        ensures
            frames == old(self).outbound,
            final(self).outbound@.len() == 0,
            final(self).player_id == old(self).player_id,
            final(self).state == old(self).state,
            final(self).inbound == old(self).inbound,
    {
        let mut frames: Vec<String> = Vec::new();
        std::mem::swap(&mut frames, &mut self.outbound);
        frames
    }

    /// Takes a frame that the transport task received. A connected handle
    /// puts it at the end of the inbound queue and answers `true`; a
    /// disconnected one drops it.
    pub fn deliver(&mut self, frame: String) -> (kept: bool)
        ensures
            kept == old(self).is_connected(),
            final(self).player_id == old(self).player_id,
            final(self).state == old(self).state,
            final(self).outbound == old(self).outbound,
            kept ==> final(self).inbound@ == old(self).inbound@.push(frame),
            !kept ==> final(self).inbound == old(self).inbound,
    {
        if !self.connected() {
            return false;
        }
        self.inbound.push(frame);
        true
    }

    /// Takes note that the transport task has ended: the handle is
    /// disconnected and what was still queued for the task is dropped. What
    /// the task had received stays for the next `ensure_connected` to clear.
    pub fn transport_closed(&mut self)
        ensures
            final(self).state == ConnectionState::Disconnected,
            final(self).outbound@.len() == 0,
            final(self).player_id == old(self).player_id,
            final(self).inbound == old(self).inbound,
    {
        self.outbound = Vec::new();
        self.state = ConnectionState::Disconnected;
    }

    /// Takes everything off the inbound queue without waiting and decodes
    /// it, in arrival order; malformed frames are dropped. A handle that is
    /// disconnected, or has nothing queued, gives no events and does not
    /// change. Observing a frame makes a connecting handle joined.
    pub fn drain(&mut self) -> (events: Vec<InboundEvent>)
        ensures
            final(self).player_id == old(self).player_id,
            final(self).outbound == old(self).outbound,
            !old(self).is_connected() || old(self).inbound@.len() == 0 ==> {
                &&& events@.len() == 0
                &&& *final(self) == *old(self)
            },
            old(self).is_connected() && old(self).inbound@.len() > 0 ==> {
                &&& events_view(events@) == events_of(frames_view(old(self).inbound@))
                &&& final(self).inbound@.len() == 0
                &&& final(self).state == ConnectionState::Joined
            },
    {
        let mut events: Vec<InboundEvent> = Vec::new();
        if !self.connected() || self.inbound.len() == 0 {
            return events;
        }
        let mut frames: Vec<String> = Vec::new();
        std::mem::swap(&mut frames, &mut self.inbound);
        self.state = ConnectionState::Joined;
        let ghost texts = frames_view(frames@);
        let mut i: usize = 0;
        assert(events_view(events@) =~= events_upto(texts, 0));
        while i < frames.len()
            invariant
                i <= frames.len(),
                texts == frames_view(frames@),
                events_view(events@) == events_upto(texts, i as int),
            decreases frames.len() - i,
        {
            let ghost before = events@;
            match decode(frames[i].as_str()) {
                Ok(event) => {
                    events.push(event);
                    assert(events_view(events@) =~= events_view(before).push(event@));
                },
                Err(_) => {},
            }
            i += 1;
        }
        events
    }
}

} // verus!
