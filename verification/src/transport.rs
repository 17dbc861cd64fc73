//! The decisions of the transport task.
//!
//! The task owns the socket and does the waiting; what to do with each
//! thing that happens is decided here, one step at a time. The task starts
//! by binding its socket, sends the join frame, then writes one datagram per
//! outbound frame and forwards each received datagram that is text. The
//! first failure on either side stops the whole task.

use crate::client::frame_of;
use crate::encode::{encode, IntentView, OutboundIntent};
use vstd::prelude::*;
use vstd::utf8::{decode_utf8, valid_utf8};

verus! {

/// The size of the buffer that a datagram is received into.
pub const RECEIVE_BUFFER: usize = 1024;

/// Where the transport task stands.
#[derive(Clone, Copy, Debug, PartialEq, Eq, Structural)]
pub enum TransportState {
    /// The socket is not bound yet.
    Starting,
    /// The join frame is out and both loops run.
    Running,
    /// The task has ended.
    Stopped,
}

/// Something that happened to the transport task.
#[derive(Debug, PartialEq, Eq)]
pub enum TransportEvent {
    /// The socket is bound.
    Bound,
    /// A frame came off the outbound queue.
    Outbound(String),
    /// A datagram was received.
    Datagram(Vec<u8>),
    /// Binding or writing to the socket failed.
    SendFailed,
    /// Reading from the socket failed.
    ReceiveFailed,
    /// One of the queues has lost its other end.
    BridgeClosed,
}

pub enum TransportEventView {
    Bound,
    Outbound(Seq<char>),
    Datagram(Seq<u8>),
    SendFailed,
    ReceiveFailed,
    BridgeClosed,
}

impl View for TransportEvent {
    type V = TransportEventView;

    open spec fn view(&self) -> TransportEventView {
        match self {
            TransportEvent::Bound => TransportEventView::Bound,
            TransportEvent::Outbound(frame) => TransportEventView::Outbound(frame@),
            TransportEvent::Datagram(bytes) => TransportEventView::Datagram(bytes@),
            TransportEvent::SendFailed => TransportEventView::SendFailed,
            TransportEvent::ReceiveFailed => TransportEventView::ReceiveFailed,
            TransportEvent::BridgeClosed => TransportEventView::BridgeClosed,
        }
    }
}

/// What the transport task does next.
#[derive(Debug, PartialEq, Eq)]
pub enum TransportAction {
    /// Write this frame to the server as one datagram.
    Send(String),
    /// Put this frame on the inbound queue.
    Forward(String),
    /// Nothing.
    Nothing,
    /// End both loops.
    Stop,
}

pub enum TransportActionView {
    Send(Seq<char>),
    Forward(Seq<char>),
    Nothing,
    Stop,
}

impl View for TransportAction {
    type V = TransportActionView;

    open spec fn view(&self) -> TransportActionView {
        match self {
            TransportAction::Send(frame) => TransportActionView::Send(frame@),
            TransportAction::Forward(frame) => TransportActionView::Forward(frame@),
            TransportAction::Nothing => TransportActionView::Nothing,
            TransportAction::Stop => TransportActionView::Stop,
        }
    }
}

/// The intent of the join handshake.
pub open spec fn join_view() -> IntentView {
    IntentView::JoinGame { game_id: "default"@, team: "blue"@ }
}

/// The intent that opens every connection: joining the default game on the
/// blue team.
pub fn join_intent() -> (intent: OutboundIntent)
    ensures
        intent@ == join_view(),
{
    OutboundIntent::JoinGame { game_id: String::from_str("default"), team: String::from_str("blue") }
}

/// Whether an event ends a running task.
pub open spec fn is_failure(event: TransportEventView) -> bool {
    event is SendFailed || event is ReceiveFailed || event is BridgeClosed
}

/// The state after an event.
pub open spec fn next_state(state: TransportState, event: TransportEventView) -> TransportState {
    match state {
        TransportState::Starting => if event is Bound {
            TransportState::Running
        } else {
            TransportState::Stopped
        },
        TransportState::Running => if is_failure(event) {
            TransportState::Stopped
        } else {
            TransportState::Running
        },
        TransportState::Stopped => TransportState::Stopped,
    }
}

/// What the task does on an event.
pub open spec fn next_action(
    state: TransportState,
    event: TransportEventView,
    player_id: Seq<char>,
) -> TransportActionView {
    match state {
        TransportState::Starting => if event is Bound {
            TransportActionView::Send(frame_of(join_view(), player_id))
        } else {
            TransportActionView::Stop
        },
        TransportState::Running => match event {
            TransportEventView::Bound => TransportActionView::Nothing,
            TransportEventView::Outbound(frame) => TransportActionView::Send(frame),
            TransportEventView::Datagram(bytes) => if valid_utf8(bytes) {
                TransportActionView::Forward(decode_utf8(bytes))
            } else {
                TransportActionView::Nothing
            },
            _ => TransportActionView::Stop,
        },
        TransportState::Stopped => TransportActionView::Nothing,
    }
}

/// Reads bytes as text with `String::from_utf8`: the text that the bytes
/// encode where they are UTF-8, `None` where they are not.
#[verifier::external_body]
fn text_of_bytes(bytes: Vec<u8>) -> (text: Option<String>)
    ensures
        text.is_some() == valid_utf8(bytes@),
        text matches Some(s) ==> s@ == decode_utf8(bytes@),
{
    match String::from_utf8(bytes) {
        Ok(s) => Some(s),
        Err(_) => None,
    }
}

/// One step of the transport task: the next state and what to do.
pub fn transport_step(state: TransportState, event: TransportEvent, player_id: &str) -> (next: (
    TransportState,
    TransportAction,
))
    ensures
        next.0 == next_state(state, event@),
        next.1@ == next_action(state, event@, player_id@),
{
    match state {
        TransportState::Starting => match event {
            TransportEvent::Bound => {
                let join = join_intent();
                (TransportState::Running, TransportAction::Send(encode(&join, player_id)))
            },
            _ => (TransportState::Stopped, TransportAction::Stop),
        },
        TransportState::Running => match event {
            TransportEvent::Bound => (TransportState::Running, TransportAction::Nothing),
            TransportEvent::Outbound(frame) => (
                TransportState::Running,
                TransportAction::Send(frame),
            ),
            TransportEvent::Datagram(bytes) => match text_of_bytes(bytes) {
                Some(text) => (TransportState::Running, TransportAction::Forward(text)),
                None => (TransportState::Running, TransportAction::Nothing),
            },
            _ => (TransportState::Stopped, TransportAction::Stop),
        },
        TransportState::Stopped => (TransportState::Stopped, TransportAction::Nothing),
    }
}

/// Once stopped, the task stays stopped and does nothing more.
pub proof fn lemma_stopped_is_final(event: TransportEventView, player_id: Seq<char>)
    ensures
        next_state(TransportState::Stopped, event) == TransportState::Stopped,
        next_action(TransportState::Stopped, event, player_id) == TransportActionView::Nothing,
{
}

/// A failure on either side ends a running task: one loop never outlives
/// the other.
pub proof fn lemma_failure_stops(event: TransportEventView, player_id: Seq<char>)
    requires
        is_failure(event),
    ensures
        next_state(TransportState::Running, event) == TransportState::Stopped,
        next_action(TransportState::Running, event, player_id) == TransportActionView::Stop,
{
}

} // verus!
