//! The consensus messages whose fields are plain values.
//!
//! Append-entries requests and forwarded client writes carry application
//! data; the application encodes those itself and hands the router bytes.

use vstd::prelude::*;

verus! {

/// A candidate's request for a vote.
#[derive(Clone, Copy, Debug, PartialEq, Eq, Structural)]
pub struct VoteRequest {
    pub term: u64,
    pub candidate_id: u64,
    pub last_log_index: u64,
    pub last_log_term: u64,
}

/// A peer's answer to a vote request.
#[derive(Clone, Copy, Debug, PartialEq, Eq, Structural)]
pub struct VoteResponse {
    pub term: u64,
    pub vote_granted: bool,
}

/// Where a follower's log first disagrees with the leader's.
#[derive(Clone, Copy, Debug, PartialEq, Eq, Structural)]
pub struct ConflictOpt {
    pub term: u64,
    pub index: u64,
}

/// A follower's answer to an append-entries request.
#[derive(Clone, Copy, Debug, PartialEq, Eq, Structural)]
pub struct AppendEntriesResponse {
    pub term: u64,
    pub success: bool,
    pub conflict_opt: Option<ConflictOpt>,
}

/// One chunk of a snapshot that the leader sends to a follower.
#[derive(Clone, Debug, PartialEq, Eq)]
pub struct InstallSnapshotRequest {
    pub term: u64,
    pub leader_id: u64,
    pub last_included_index: u64,
    pub last_included_term: u64,
    pub offset: u64,
    pub data: Vec<u8>,
    pub done: bool,
}

/// A snapshot chunk as a mathematical value: the chunk's bytes are a sequence.
pub struct SnapshotChunk {
    pub term: u64,
    pub leader_id: u64,
    pub last_included_index: u64,
    pub last_included_term: u64,
    pub offset: u64,
    pub data: Seq<u8>,
    pub done: bool,
}

impl View for InstallSnapshotRequest {
    type V = SnapshotChunk;

    open spec fn view(&self) -> SnapshotChunk {
        SnapshotChunk {
            term: self.term,
            leader_id: self.leader_id,
            last_included_index: self.last_included_index,
            last_included_term: self.last_included_term,
            offset: self.offset,
            data: self.data@,
            done: self.done,
        }
    }
}

/// A follower's answer to a snapshot chunk.
#[derive(Clone, Copy, Debug, PartialEq, Eq, Structural)]
pub struct InstallSnapshotResponse {
    pub term: u64,
}

} // verus!
