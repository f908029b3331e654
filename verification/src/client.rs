//! One peer connection.

use vstd::prelude::*;
use std::sync::Arc;
use tokio::sync::RwLock;
use tonic::transport::Channel;
use crate::envelope::{Envelope, MessageKind};
use crate::error::TransportError;

verus! {

/// `tokio::sync::RwLock`, the asynchronous reader-writer lock: carried, never
/// looked into.
#[verifier::external_type_specification]
#[verifier::external_body]
#[verifier::reject_recursive_types(T)]
pub struct ExRwLock<T: ?Sized>(RwLock<T>);

/// `tonic::transport::Channel`, the handle of an open gRPC connection:
/// carried, never looked into.
#[verifier::external_type_specification]
#[verifier::external_body]
pub struct ExChannel(Channel);

/// `tokio::sync::RwLock::new`: a lock around the value. Nothing is claimed
/// of it.
#[verifier::external_body]
fn guard(channel: Channel) -> RwLock<Channel> {
    RwLock::new(channel)
}

/// `Arc::clone`: one more handle to the same lock. Nothing is claimed of it.
#[verifier::external_body]
fn share(link: &Arc<RwLock<Channel>>) -> Arc<RwLock<Channel>> {
    Arc::clone(link)
}

/// The connection to one peer: the RPC channel behind the peer's own lock,
/// and the address that the channel was opened to.
///
/// Whoever sends on the channel takes the lock for writing first, so calls
/// to one peer go out one at a time while calls to other peers go on.
pub struct Client {
    rpc_client: Arc<RwLock<Channel>>,
    addr: String,
}

impl Clone for Client {
    /// A second handle to the same connection: the copy shares the channel
    /// and its lock, and has the same address.
    fn clone(&self) -> (copy: Self)
        ensures
            copy.address() == self.address(),
    {
        Client { rpc_client: share(&self.rpc_client), addr: self.addr.clone() }
    }
}

impl Client {
    /// The address that the connection was opened to.
    pub closed spec fn address(&self) -> Seq<char> {
        self.addr@
    }

    /// The connection's channel behind its lock.
    pub closed spec fn link(&self) -> Arc<RwLock<Channel>> {
        self.rpc_client
    }

    pub fn new(channel: Channel, addr: String) -> (c: Client)
        ensures
            c.address() == addr@,
    {
        Client { rpc_client: Arc::new(guard(channel)), addr }
    }

    pub fn addr(&self) -> (a: &String)
        ensures
            a@ == self.address(),
    {
        &self.addr
    }

    /// The locked channel, to be shared with the task that sends.
    pub fn rpc_client(&self) -> (shared: &Arc<RwLock<Channel>>)
        ensures
            *shared == self.link(),
    {
        &self.rpc_client
    }

    /// The envelope that relays a client write to this peer. `encoded` is the
    /// outcome of encoding the write; a failure there is reported as
    /// [`TransportError::Encode`] and nothing is to be sent.
    pub fn forward(&self, encoded: Result<Vec<u8>, String>) -> (r: Result<
        Envelope,
        TransportError,
    >)
        ensures
            match encoded {
                Ok(payload) => r == Ok::<Envelope, TransportError>(
                    Envelope { kind: MessageKind::ForwardedWrite, payload },
                ),
                Err(details) => r == Err::<Envelope, TransportError>(
                    TransportError::Encode(details),
                ),
            },
    {
        match encoded {
            Ok(payload) => Ok(Envelope { kind: MessageKind::ForwardedWrite, payload }),
            Err(details) => Err(TransportError::Encode(details)),
        }
    }
}

} // verus!
