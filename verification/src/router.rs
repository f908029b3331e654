//! The registry of peer connections, and the decisions of every call to a
//! peer.
//!
//! The router never touches the network. A call is made in two steps with
//! the network between them: the router first says what is to be sent and
//! over which connection, or why nothing is to be sent; whoever owns the
//! network sends it, and hands the outcome to the matching `*_reply`
//! function, which says what the caller gets. Adding a peer works the same
//! way: `add_client` says whether to dial, `finish_add_client` records what
//! the dialing gave.

use vstd::prelude::*;
use dashmap::DashMap;
use tonic::transport::Channel;
use crate::client::Client;
use crate::codec::{
    decode_append_entries_response, decode_install_snapshot_response, decode_vote_response,
    encode_install_snapshot_request, encode_vote_request,
};
use crate::envelope::{Envelope, MessageKind};
use crate::error::{ConnectError, TransportError};
use crate::message::{
    AppendEntriesResponse, InstallSnapshotRequest, InstallSnapshotResponse, VoteRequest,
    VoteResponse,
};
use crate::registry::{empty, holds, insert_if_absent, listing, lists, no_peers, peer, peers_held};
use crate::wire::{
    append_entries_response_parse, install_snapshot_request_wire,
    install_snapshot_response_parse, vote_request_wire, vote_response_parse,
};

verus! {

/// What to do about a request to add a peer.
#[derive(Clone, Debug, PartialEq, Eq)]
pub enum AddStep {
    /// The peer has a connection already: nothing to do, the request has
    /// succeeded.
    Present,
    /// The peer has none: dial this URL and report with `finish_add_client`.
    Connect(String),
}

/// A call that is ready to go out: the peer's connection and what to send
/// over it.
pub struct Outbound {
    pub client: Client,
    pub envelope: Envelope,
}

/// The peer connections of one node, by peer id.
pub struct RaftRouter {
    clients: DashMap<u64, Client>,
}

/// The URL at which a peer with this address is dialed.
pub open spec fn url_of(addr: Seq<char>) -> Seq<char> {
    "http://"@ + addr
}

/// The registry after a connection to `addr` was made for `id`: a peer that
/// is registered already keeps what it has.
pub open spec fn registered(peers: Map<u64, Seq<char>>, id: u64, addr: Seq<char>) -> Map<
    u64,
    Seq<char>,
> {
    if peers.contains_key(id) {
        peers
    } else {
        peers.insert(id, addr)
    }
}

/// What a call to `target` with an encoding outcome `encoded` comes to: no
/// connection, no call; no bytes, no call; else the bytes go out under
/// `kind` over the connection that the registry holds for `target`.
pub open spec fn dispatched(
    peers: Map<u64, Seq<char>>,
    target: u64,
    kind: MessageKind,
    encoded: Result<Vec<u8>, String>,
    r: Result<Outbound, TransportError>,
) -> bool {
    if !peers.contains_key(target) {
        r == Err::<Outbound, TransportError>(TransportError::UnknownPeer(target))
    } else {
        match encoded {
            Err(details) => r == Err::<Outbound, TransportError>(TransportError::Encode(details)),
            Ok(payload) => {
                &&& r matches Ok(out)
                &&& out.envelope == (Envelope { kind, payload })
                &&& out.client.address() == peers[target]
            },
        }
    }
}

/// `format!` with `"http://{}"` on the address: the prefix followed by the
/// address as it is.
#[verifier::external_body]
fn http_url(addr: &str) -> (url: String)
    ensures
        url@ == url_of(addr@),
{
    format!("http://{}", addr)
}

/// The call that goes out over `client`, or the encoding failure that
/// stops it.
fn send_over(client: Client, kind: MessageKind, encoded: Result<Vec<u8>, String>) -> (r: Result<
    Outbound,
    TransportError,
>)
    ensures
        match encoded {
            Err(details) => r == Err::<Outbound, TransportError>(TransportError::Encode(details)),
            Ok(payload) => r == Ok::<Outbound, TransportError>(
                Outbound { client, envelope: Envelope { kind, payload } },
            ),
        },
{
    match encoded {
        Err(details) => Err(TransportError::Encode(details)),
        Ok(payload) => Ok(Outbound { client, envelope: Envelope { kind, payload } }),
    }
}

impl RaftRouter {
    /// The registered peers, each with the address of its connection.
    pub closed spec fn view(&self) -> Map<u64, Seq<char>> {
        peers_held(self.clients)
    }

    /// A router that knows no peer.
    pub fn new() -> (router: Self)
        ensures
            router@ == no_peers(),
    {
        RaftRouter { clients: empty() }
    }

    /// First step of adding a peer. A peer that is registered needs nothing,
    /// whatever address is given for it now; one that is not is to be dialed
    /// at `http://` followed by its address.
    pub fn add_client(&self, id: u64, addr: &str) -> (step: AddStep)
        ensures
            self@.contains_key(id) ==> step == AddStep::Present,
            !self@.contains_key(id) ==> (step matches AddStep::Connect(url) && url@ == url_of(
                addr@,
            )),
    {
        if holds(&self.clients, id) {
            AddStep::Present
        } else {
            AddStep::Connect(http_url(addr))
        }
    }

    /// Second step of adding a peer: what the dialing gave. A failure is
    /// returned and leaves the registry as it was, so the peer can be added
    /// again. A channel is registered under `id` with `addr`, unless the
    /// peer got a connection in the meantime: the first one stays, this one
    /// is dropped, and the request has succeeded all the same.
    pub fn finish_add_client(
        &mut self,
        id: u64,
        addr: String,
        dialed: Result<Channel, String>,
    ) -> (r: Result<(), ConnectError>)
        ensures
            match dialed {
                Ok(_) => r == Ok::<(), ConnectError>(()) && final(self)@ == registered(
                    old(self)@,
                    id,
                    addr@,
                ),
                Err(details) => r == Err::<(), ConnectError>(ConnectError { details })
                    && final(self)@ == old(self)@,
            },
    {
        match dialed {
            Ok(channel) => {
                insert_if_absent(&mut self.clients, id, Client::new(channel, addr));
                Ok(())
            },
            Err(details) => Err(ConnectError { details }),
        }
    }

    /// The registered peers with their addresses, each once, in no
    /// particular order.
    pub fn clients(&self) -> (all: Vec<(u64, String)>)
        ensures
            lists(all@, self@),
    {
        listing(&self.clients)
    }

    /// The connection of a peer, if it has one.
    pub fn client(&self, id: u64) -> (found: Option<Client>)
        ensures
            found is Some <==> self@.contains_key(id),
            found matches Some(c) ==> c.address() == self@[id],
    {
        peer(&self.clients, id)
    }

    /// First step of a call whose request the caller has encoded: `encoded`
    /// is the outcome of the encoding.
    pub fn dispatch(&self, target: u64, kind: MessageKind, encoded: Result<Vec<u8>, String>) -> (r:
        Result<Outbound, TransportError>)
        ensures
            dispatched(self@, target, kind, encoded, r),
    {
        match peer(&self.clients, target) {
            None => Err(TransportError::UnknownPeer(target)),
            Some(client) => send_over(client, kind, encoded),
        }
    }

    /// First step of an append-entries call. The entries carry application
    /// data, so the caller encodes the request and passes the outcome.
    pub fn append_entries(&self, target: u64, encoded: Result<Vec<u8>, String>) -> (r: Result<
        Outbound,
        TransportError,
    >)
        ensures
            dispatched(self@, target, MessageKind::AppendEntries, encoded, r),
    {
        self.dispatch(target, MessageKind::AppendEntries, encoded)
    }

    /// First step of relaying a client write to the peer that leads. The
    /// write carries application data, so the caller encodes it and passes
    /// the outcome.
    pub fn forward(&self, target: u64, encoded: Result<Vec<u8>, String>) -> (r: Result<
        Outbound,
        TransportError,
    >)
        ensures
            dispatched(self@, target, MessageKind::ForwardedWrite, encoded, r),
    {
        self.dispatch(target, MessageKind::ForwardedWrite, encoded)
    }

    /// First step of a vote call: to an unknown peer nothing goes out; to a
    /// known one the encoded request goes out.
    pub fn vote(&self, target: u64, rpc: &VoteRequest) -> (r: Result<Outbound, TransportError>)
        ensures
            !self@.contains_key(target) ==> r == Err::<Outbound, TransportError>(
                TransportError::UnknownPeer(target),
            ),
            self@.contains_key(target) ==> r is Ok,
            r matches Ok(out) ==> {
                &&& out.envelope.kind == MessageKind::Vote
                &&& out.envelope.payload@ == vote_request_wire(*rpc)
                &&& out.client.address() == self@[target]
            },
    {
        match peer(&self.clients, target) {
            None => Err(TransportError::UnknownPeer(target)),
            Some(client) => {
                let encoded = match encode_vote_request(rpc) {
                    Ok(payload) => Ok(payload),
                    Err(e) => Err(e.details),
                };
                send_over(client, MessageKind::Vote, encoded)
            },
        }
    }

    /// First step of an install-snapshot call: to an unknown peer nothing
    /// goes out; to a known one the encoded chunk goes out.
    pub fn install_snapshot(&self, target: u64, rpc: &InstallSnapshotRequest) -> (r: Result<
        Outbound,
        TransportError,
    >)
        ensures
            !self@.contains_key(target) ==> r == Err::<Outbound, TransportError>(
                TransportError::UnknownPeer(target),
            ),
            self@.contains_key(target) ==> r is Ok,
            r matches Ok(out) ==> {
                &&& out.envelope.kind == MessageKind::InstallSnapshot
                &&& out.envelope.payload@ == install_snapshot_request_wire(rpc@)
                &&& out.client.address() == self@[target]
            },
    {
        match peer(&self.clients, target) {
            None => Err(TransportError::UnknownPeer(target)),
            Some(client) => {
                let encoded = match encode_install_snapshot_request(rpc) {
                    Ok(payload) => Ok(payload),
                    Err(e) => Err(e.details),
                };
                send_over(client, MessageKind::InstallSnapshot, encoded)
            },
        }
    }
}

/// Second step of relaying a client write: a failed RPC is an `Rpc` error
/// with the failure's text; the bytes of an answer are passed on for the
/// caller to decode.
pub fn forward_reply(reply: Result<Vec<u8>, String>) -> (r: Result<Vec<u8>, TransportError>)
    ensures
        match reply {
            Ok(bytes) => r == Ok::<Vec<u8>, TransportError>(bytes),
            Err(details) => r == Err::<Vec<u8>, TransportError>(TransportError::Rpc(details)),
        },
{
    match reply {
        Ok(bytes) => Ok(bytes),
        Err(details) => Err(TransportError::Rpc(details)),
    }
}

/// Second step of a vote call: a failed RPC is an `Rpc` error with the
/// failure's text; an answer that reads as a vote response is that
/// response, granted or not; any other answer is a `Decode` error.
pub fn vote_reply(reply: Result<Vec<u8>, String>) -> (r: Result<VoteResponse, TransportError>)
    ensures
        match reply {
            Err(details) => r == Err::<VoteResponse, TransportError>(TransportError::Rpc(details)),
            Ok(bytes) => match vote_response_parse(bytes@) {
                Some(m) => r == Ok::<VoteResponse, TransportError>(m),
                None => r matches Err(TransportError::Decode(_)),
            },
        },
{
    match reply {
        Err(details) => Err(TransportError::Rpc(details)),
        Ok(bytes) => match decode_vote_response(bytes.as_slice()) {
            Ok(m) => Ok(m),
            Err(e) => Err(TransportError::Decode(e.details)),
        },
    }
}

/// Second step of an append-entries call: a failed RPC is an `Rpc` error
/// with the failure's text; an answer that reads as an append-entries
/// response is that response; any other answer is a `Decode` error.
pub fn append_entries_reply(reply: Result<Vec<u8>, String>) -> (r: Result<
    AppendEntriesResponse,
    TransportError,
>)
    ensures
        match reply {
            Err(details) => r == Err::<AppendEntriesResponse, TransportError>(
                TransportError::Rpc(details),
            ),
            Ok(bytes) => match append_entries_response_parse(bytes@) {
                Some(m) => r == Ok::<AppendEntriesResponse, TransportError>(m),
                None => r matches Err(TransportError::Decode(_)),
            },
        },
{
    match reply {
        Err(details) => Err(TransportError::Rpc(details)),
        Ok(bytes) => match decode_append_entries_response(bytes.as_slice()) {
            Ok(m) => Ok(m),
            Err(e) => Err(TransportError::Decode(e.details)),
        },
    }
}

/// Second step of an install-snapshot call: a failed RPC is an `Rpc` error
/// with the failure's text; an answer that reads as a snapshot response is
/// that response; any other answer is a `Decode` error.
pub fn install_snapshot_reply(reply: Result<Vec<u8>, String>) -> (r: Result<
    InstallSnapshotResponse,
    TransportError,
>)
    ensures
        match reply {
            Err(details) => r == Err::<InstallSnapshotResponse, TransportError>(
                TransportError::Rpc(details),
            ),
            Ok(bytes) => match install_snapshot_response_parse(bytes@) {
                Some(m) => r == Ok::<InstallSnapshotResponse, TransportError>(m),
                None => r matches Err(TransportError::Decode(_)),
            },
        },
{
    match reply {
        Err(details) => Err(TransportError::Rpc(details)),
        Ok(bytes) => match decode_install_snapshot_response(bytes.as_slice()) {
            Ok(m) => Ok(m),
            Err(e) => Err(TransportError::Decode(e.details)),
        },
    }
}

/// Of two connections made for one peer, the one recorded first is the
/// peer's connection; recording the other changes nothing, and no other
/// peer is touched by either.
pub proof fn lemma_first_writer_wins(
    peers: Map<u64, Seq<char>>,
    id: u64,
    first: Seq<char>,
    second: Seq<char>,
)
    ensures
        registered(registered(peers, id, first), id, second) == registered(peers, id, first),
        registered(peers, id, first).contains_key(id),
        !peers.contains_key(id) ==> registered(peers, id, first)[id] == first,
        peers.contains_key(id) ==> registered(peers, id, first) == peers,
        forall|other: u64|
            other != id ==> (registered(peers, id, first).contains_key(other)
                <==> peers.contains_key(other)),
        forall|other: u64|
            other != id && peers.contains_key(other) ==> registered(peers, id, first)[other]
                == peers[other],
{
}

} // verus!
