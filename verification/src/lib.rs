//! A client for a correlated request/response protocol carried as JSON
//! messages over one connection: the message codec, the retry policy, the
//! table of pending requests and the client's state machine.

pub mod bridge;
pub mod client;
pub mod codec;
pub mod json;
pub mod mpsc;
pub mod oneshot;
pub mod pending;
pub mod protocol;
pub mod retry;
pub mod round_trip;
