//! The map from peer to connection.
//!
//! The connections live in a `DashMap`. Verus sees only what the map holds,
//! as a mathematical map from peer id to the address of the peer's
//! connection; every change goes through `&mut`, so that view cannot move
//! under a reader.

use vstd::prelude::*;
use dashmap::DashMap;
use crate::client::Client;

verus! {

/// `dashmap::DashMap`, the concurrent hash map.
#[verifier::external_type_specification]
#[verifier::external_body]
#[verifier::reject_recursive_types(K)]
#[verifier::reject_recursive_types(V)]
#[verifier::reject_recursive_types(S)]
pub struct ExDashMap<K, V, S>(DashMap<K, V, S>);

/// The peers that the map holds, each with the address of its connection.
pub uninterp spec fn peers_held(map: DashMap<u64, Client>) -> Map<u64, Seq<char>>;

/// The registry with no peer in it.
pub open spec fn no_peers() -> Map<u64, Seq<char>> {
    Map::empty()
}

/// `all` names each peer of `peers` once, with its address, in any order.
pub open spec fn lists(all: Seq<(u64, String)>, peers: Map<u64, Seq<char>>) -> bool {
    &&& forall|i: int|
        #![trigger all[i]]
        0 <= i < all.len() ==> peers.contains_key(all[i].0) && peers[all[i].0] == all[i].1@
    &&& forall|i: int, j: int|
        #![trigger all[i], all[j]]
        0 <= i < j < all.len() ==> all[i].0 != all[j].0
    &&& forall|id: u64|
        #![trigger peers.contains_key(id)]
        peers.contains_key(id) ==> exists|i: int|
            #![trigger all[i]]
            0 <= i < all.len() && all[i].0 == id
}

/// `DashMap::new`: a map that holds nothing.
#[verifier::external_body]
pub(crate) fn empty() -> (fresh: DashMap<u64, Client>)
    ensures
        peers_held(fresh) == no_peers(),
{
    DashMap::new()
}

/// `DashMap::contains_key`: whether the map holds the key.
#[verifier::external_body]
pub(crate) fn holds(map: &DashMap<u64, Client>, id: u64) -> (found: bool)
    ensures
        found == peers_held(*map).contains_key(id),
{
    map.contains_key(&id)
}

/// `DashMap::get`, and a clone of the connection found: `Some` exactly for a
/// key that the map holds, with the address that the map holds for it.
#[verifier::external_body]
pub(crate) fn peer(map: &DashMap<u64, Client>, id: u64) -> (found: Option<Client>)
    ensures
        found is Some <==> peers_held(*map).contains_key(id),
        found matches Some(client) ==> client.address() == peers_held(*map)[id],
{
    map.get(&id).map(|held| held.value().clone())
}

/// `DashMap::entry` with `Entry::or_insert`: a key that the map holds keeps
/// its connection and the new one is dropped; a key that it does not hold
/// gets the new one. No other key is touched.
#[verifier::external_body]
pub(crate) fn insert_if_absent(map: &mut DashMap<u64, Client>, id: u64, client: Client)
    ensures
        peers_held(*final(map)) == if peers_held(*old(map)).contains_key(id) {
            peers_held(*old(map))
        } else {
            peers_held(*old(map)).insert(id, client.address())
        },
{
    map.entry(id).or_insert(client);
}

/// `DashMap::iter`, each entry as its key and a copy of its address: every
/// peer of the map once, in the order in which the map happens to walk.
#[verifier::external_body]
pub(crate) fn listing(map: &DashMap<u64, Client>) -> (all: Vec<(u64, String)>)
    ensures
        lists(all@, peers_held(*map)),
{
    map.iter().map(|held| (*held.key(), held.value().addr().clone())).collect()
}

} // verus!
