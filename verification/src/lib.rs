//! Transport core of a Raft node.
//!
//! The consensus engine names a peer and hands over a message; this crate
//! says what is to be sent over which connection, and what the peer's answer
//! means. It keeps the registry of peer connections and never touches the
//! network itself: dialing and sending are left to the caller, who reports
//! back what came of them.
//!
//! - [`message`]: the consensus messages whose fields are plain values.
//! - [`wire`]: their byte layout, and the proofs that decoding undoes
//!   encoding.
//! - [`codec`]: encoding and decoding, done by bincode.
//! - [`envelope`]: what goes over the wire, a message kind and a payload.
//! - [`error`]: what can go wrong.
//! - [`client`]: one peer connection.
//! - [`registry`]: the map that holds the connections.
//! - [`router`]: the registry's operations and the two steps of every call.

pub mod client;
pub mod codec;
pub mod envelope;
pub mod error;
pub mod message;
pub mod registry;
pub mod router;
pub mod wire;
