//! The message that goes over the wire: which RPC it is for, and the encoded
//! payload. Nothing in it depends on how the consensus messages are typed.

use vstd::prelude::*;

verus! {

/// The four RPC methods of a peer.
#[derive(Clone, Copy, Debug, PartialEq, Eq, Structural)]
pub enum MessageKind {
    AppendEntries,
    InstallSnapshot,
    Vote,
    ForwardedWrite,
}

/// An encoded message on its way to a peer.
#[derive(Clone, Debug, PartialEq, Eq)]
pub struct Envelope {
    pub kind: MessageKind,
    pub payload: Vec<u8>,
}

} // verus!
