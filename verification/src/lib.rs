//! Client-side network synchronisation bridge for a tick-driven paint game:
//! the wire codec, the connection handle with its two queues, the transport
//! task's decisions and the dispatcher that applies server events to the
//! local view of the game.

pub mod client;
pub mod decode;
pub mod dispatch;
pub mod encode;
pub mod events;
pub mod json;
pub mod manager;
pub mod systems;
pub mod table;
pub mod transport;
