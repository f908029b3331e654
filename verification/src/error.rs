//! What can go wrong between the consensus engine and a peer.

use vstd::prelude::*;

verus! {

/// A message could not be turned into bytes: a local fault, not the peer's.
#[derive(Clone, Debug, PartialEq, Eq)]
pub struct EncodeError {
    pub details: String,
}

/// Bytes did not have the shape of the message that was expected.
#[derive(Clone, Debug, PartialEq, Eq)]
pub struct DecodeError {
    pub details: String,
}

/// The peer could not be reached when its connection was opened.
#[derive(Clone, Debug, PartialEq, Eq)]
pub struct ConnectError {
    pub details: String,
}

/// Why a call to a peer gave no response.
#[derive(Clone, Debug, PartialEq, Eq)]
pub enum TransportError {
    /// No connection is registered for the peer; nothing was sent.
    UnknownPeer(u64),
    /// The request could not be encoded; nothing was sent.
    Encode(String),
    /// The network or the remote side failed while the call was in flight.
    Rpc(String),
    /// The call went through, but the peer's answer could not be decoded.
    Decode(String),
}

/// The character of a decimal digit.
pub open spec fn digit(d: nat) -> char {
    if d == 0 {
        '0'
    } else if d == 1 {
        '1'
    } else if d == 2 {
        '2'
    } else if d == 3 {
        '3'
    } else if d == 4 {
        '4'
    } else if d == 5 {
        '5'
    } else if d == 6 {
        '6'
    } else if d == 7 {
        '7'
    } else if d == 8 {
        '8'
    } else {
        '9'
    }
}

/// A number in decimal, without leading zeros.
pub open spec fn decimal(n: nat) -> Seq<char>
    decreases n,
{
    if n < 10 {
        seq![digit(n)]
    } else {
        decimal(n / 10).push(digit(n % 10))
    }
}

/// What is said of a call to a peer that has no connection.
pub open spec fn unknown_peer_text(target: u64) -> Seq<char> {
    "Client "@ + decimal(target as nat) + " not found."@
}

/// `format!` with `"Client {} not found."` on the peer id: the id is written
/// in decimal between the two pieces of text.
#[verifier::external_body]
fn unknown_peer_message(target: u64) -> (text: String)
    ensures
        text@ == unknown_peer_text(target),
{
    format!("Client {} not found.", target)
}

impl TransportError {
    /// The error in words.
    pub open spec fn text(self) -> Seq<char> {
        match self {
            TransportError::UnknownPeer(target) => unknown_peer_text(target),
            TransportError::Encode(details) => details@,
            TransportError::Rpc(details) => details@,
            TransportError::Decode(details) => details@,
        }
    }

    /// The error in words: which peer is unknown, or the details as they
    /// came from the codec or the RPC layer.
    pub fn message(&self) -> (said: String)
        ensures
            said@ == self.text(),
    {
        match self {
            TransportError::UnknownPeer(target) => unknown_peer_message(*target),
            TransportError::Encode(details) => details.clone(),
            TransportError::Rpc(details) => details.clone(),
            TransportError::Decode(details) => details.clone(),
        }
    }
}

} // verus!
