//! The byte layout of the plain consensus messages, and the proofs that
//! reading a written message gives the message back.
//!
//! The layout is bincode's with fixed-width integers: a `u64` is eight bytes,
//! least significant first; a `bool` is one byte, 0 or 1; a struct is its
//! fields in declaration order with nothing between them; an `Option` is a tag
//! byte, 0 for `None` and 1 for `Some`, followed by the value if there is one;
//! a byte vector is its length as a `u64` followed by its bytes. A reader
//! takes what it needs from the front and ignores what follows.

use vstd::prelude::*;
use vstd::bytes::{
    lemma_auto_spec_u64_to_from_le_bytes, spec_u64_from_le_bytes, spec_u64_to_le_bytes,
};
use crate::message::{
    AppendEntriesResponse, ConflictOpt, InstallSnapshotResponse, SnapshotChunk, VoteRequest,
    VoteResponse,
};

verus! {

/// The eight bytes of `x`, least significant first.
pub open spec fn u64_wire(x: u64) -> Seq<u8> {
    spec_u64_to_le_bytes(x)
}

/// The integer whose eight bytes start at position `at`.
pub open spec fn u64_at(bytes: Seq<u8>, at: int) -> u64 {
    spec_u64_from_le_bytes(bytes.subrange(at, at + 8))
}

/// The single byte of a flag.
pub open spec fn bool_wire(b: bool) -> Seq<u8> {
    seq![if b { 1u8 } else { 0u8 }]
}

pub open spec fn vote_request_wire(m: VoteRequest) -> Seq<u8> {
    u64_wire(m.term) + u64_wire(m.candidate_id) + u64_wire(m.last_log_index) + u64_wire(
        m.last_log_term,
    )
}

pub open spec fn vote_request_parse(bytes: Seq<u8>) -> Option<VoteRequest> {
    if bytes.len() >= 32 {
        Some(
            VoteRequest {
                term: u64_at(bytes, 0),
                candidate_id: u64_at(bytes, 8),
                last_log_index: u64_at(bytes, 16),
                last_log_term: u64_at(bytes, 24),
            },
        )
    } else {
        None
    }
}

pub open spec fn vote_response_wire(m: VoteResponse) -> Seq<u8> {
    u64_wire(m.term) + bool_wire(m.vote_granted)
}

pub open spec fn vote_response_parse(bytes: Seq<u8>) -> Option<VoteResponse> {
    if bytes.len() >= 9 && bytes[8] <= 1 {
        Some(VoteResponse { term: u64_at(bytes, 0), vote_granted: bytes[8] == 1 })
    } else {
        None
    }
}

pub open spec fn conflict_wire(c: ConflictOpt) -> Seq<u8> {
    u64_wire(c.term) + u64_wire(c.index)
}

pub open spec fn append_entries_response_wire(m: AppendEntriesResponse) -> Seq<u8> {
    u64_wire(m.term) + bool_wire(m.success) + match m.conflict_opt {
        None => seq![0u8],
        Some(c) => seq![1u8] + conflict_wire(c),
    }
}

pub open spec fn append_entries_response_parse(bytes: Seq<u8>) -> Option<AppendEntriesResponse> {
    if bytes.len() >= 10 && bytes[8] <= 1 && bytes[9] == 0 {
        Some(
            AppendEntriesResponse {
                term: u64_at(bytes, 0),
                success: bytes[8] == 1,
                conflict_opt: None,
            },
        )
    } else if bytes.len() >= 26 && bytes[8] <= 1 && bytes[9] == 1 {
        Some(
            AppendEntriesResponse {
                term: u64_at(bytes, 0),
                success: bytes[8] == 1,
                conflict_opt: Some(
                    ConflictOpt { term: u64_at(bytes, 10), index: u64_at(bytes, 18) },
                ),
            },
        )
    } else {
        None
    }
}

pub open spec fn install_snapshot_response_wire(m: InstallSnapshotResponse) -> Seq<u8> {
    u64_wire(m.term)
}

pub open spec fn install_snapshot_response_parse(bytes: Seq<u8>) -> Option<
    InstallSnapshotResponse,
> {
    if bytes.len() >= 8 {
        Some(InstallSnapshotResponse { term: u64_at(bytes, 0) })
    } else {
        None
    }
}

pub open spec fn install_snapshot_request_wire(m: SnapshotChunk) -> Seq<u8> {
    u64_wire(m.term) + u64_wire(m.leader_id) + u64_wire(m.last_included_index) + u64_wire(
        m.last_included_term,
    ) + u64_wire(m.offset) + u64_wire(m.data.len() as u64) + m.data + bool_wire(m.done)
}

pub open spec fn install_snapshot_request_parse(bytes: Seq<u8>) -> Option<SnapshotChunk> {
    if bytes.len() >= 48 && bytes.len() >= 49 + u64_at(bytes, 40) && bytes[48 + u64_at(bytes, 40)]
        <= 1 {
        Some(
            SnapshotChunk {
                term: u64_at(bytes, 0),
                leader_id: u64_at(bytes, 8),
                last_included_index: u64_at(bytes, 16),
                last_included_term: u64_at(bytes, 24),
                offset: u64_at(bytes, 32),
                data: bytes.subrange(48, 48 + u64_at(bytes, 40)),
                done: bytes[48 + u64_at(bytes, 40)] == 1,
            },
        )
    } else {
        None
    }
}

/// A written integer is eight bytes long, and is read back from wherever it
/// was put in a longer sequence.
proof fn lemma_u64_read_back(before: Seq<u8>, x: u64, after: Seq<u8>)
    ensures
        u64_wire(x).len() == 8,
        u64_at(before + u64_wire(x) + after, before.len() as int) == x,
{
    lemma_auto_spec_u64_to_from_le_bytes();
    let at = before.len() as int;
    assert((before + u64_wire(x) + after).subrange(at, at + 8) =~= u64_wire(x));
}

proof fn vote_request_read_back(m: VoteRequest, rest: Seq<u8>)
    ensures
        vote_request_parse(vote_request_wire(m) + rest) == Some(m),
{
    let a = u64_wire(m.term);
    let b = u64_wire(m.candidate_id);
    let c = u64_wire(m.last_log_index);
    let d = u64_wire(m.last_log_term);
    let all = vote_request_wire(m) + rest;
    lemma_u64_read_back(Seq::empty(), m.term, b + c + d + rest);
    lemma_u64_read_back(a, m.candidate_id, c + d + rest);
    lemma_u64_read_back(a + b, m.last_log_index, d + rest);
    lemma_u64_read_back(a + b + c, m.last_log_term, rest);
    assert(all =~= Seq::empty() + a + (b + c + d + rest));
    assert(all =~= a + b + (c + d + rest));
    assert(all =~= a + b + c + (d + rest));
    assert(all =~= a + b + c + d + rest);
}

proof fn vote_response_read_back(m: VoteResponse, rest: Seq<u8>)
    ensures
        vote_response_parse(vote_response_wire(m) + rest) == Some(m),
{
    let a = u64_wire(m.term);
    let all = vote_response_wire(m) + rest;
    lemma_u64_read_back(Seq::empty(), m.term, bool_wire(m.vote_granted) + rest);
    assert(all =~= Seq::empty() + a + (bool_wire(m.vote_granted) + rest));
    assert(all[8] == bool_wire(m.vote_granted)[0]);
}

proof fn append_entries_response_read_back(m: AppendEntriesResponse, rest: Seq<u8>)
    ensures
        append_entries_response_parse(append_entries_response_wire(m) + rest) == Some(m),
{
    let a = u64_wire(m.term);
    let s = bool_wire(m.success);
    let all = append_entries_response_wire(m) + rest;
    match m.conflict_opt {
        None => {
            lemma_u64_read_back(Seq::empty(), m.term, s + seq![0u8] + rest);
            assert(all =~= Seq::empty() + a + (s + seq![0u8] + rest));
            assert(all[8] == s[0]);
            assert(all[9] == 0u8);
        },
        Some(c) => {
            let t = seq![1u8];
            let ct = u64_wire(c.term);
            let ci = u64_wire(c.index);
            lemma_u64_read_back(Seq::empty(), m.term, s + t + ct + ci + rest);
            lemma_u64_read_back(a + s + t, c.term, ci + rest);
            lemma_u64_read_back(a + s + t + ct, c.index, rest);
            assert(all =~= Seq::empty() + a + (s + t + ct + ci + rest));
            assert(all =~= a + s + t + ct + (ci + rest));
            assert(all =~= a + s + t + ct + ci + rest);
            assert(all[8] == s[0]);
            assert(all[9] == 1u8);
        },
    }
}

proof fn install_snapshot_response_read_back(m: InstallSnapshotResponse, rest: Seq<u8>)
    ensures
        install_snapshot_response_parse(install_snapshot_response_wire(m) + rest) == Some(m),
{
    lemma_u64_read_back(Seq::empty(), m.term, rest);
    assert(install_snapshot_response_wire(m) + rest =~= Seq::empty() + u64_wire(m.term) + rest);
}

proof fn install_snapshot_request_read_back(m: SnapshotChunk, rest: Seq<u8>)
    requires
        m.data.len() <= u64::MAX,
    ensures
        install_snapshot_request_parse(install_snapshot_request_wire(m) + rest) == Some(m),
{
    let a = u64_wire(m.term);
    let b = u64_wire(m.leader_id);
    let c = u64_wire(m.last_included_index);
    let d = u64_wire(m.last_included_term);
    let e = u64_wire(m.offset);
    let n = m.data.len() as u64;
    let l = u64_wire(n);
    let f = bool_wire(m.done);
    let all = install_snapshot_request_wire(m) + rest;
    lemma_u64_read_back(Seq::empty(), m.term, b + c + d + e + l + m.data + f + rest);
    lemma_u64_read_back(a, m.leader_id, c + d + e + l + m.data + f + rest);
    lemma_u64_read_back(a + b, m.last_included_index, d + e + l + m.data + f + rest);
    lemma_u64_read_back(a + b + c, m.last_included_term, e + l + m.data + f + rest);
    lemma_u64_read_back(a + b + c + d, m.offset, l + m.data + f + rest);
    lemma_u64_read_back(a + b + c + d + e, n, m.data + f + rest);
    assert(all =~= Seq::empty() + a + (b + c + d + e + l + m.data + f + rest));
    assert(all =~= a + b + (c + d + e + l + m.data + f + rest));
    assert(all =~= a + b + c + (d + e + l + m.data + f + rest));
    assert(all =~= a + b + c + d + (e + l + m.data + f + rest));
    assert(all =~= a + b + c + d + e + (l + m.data + f + rest));
    assert(all =~= a + b + c + d + e + l + (m.data + f + rest));
    assert(u64_at(all, 40) == n);
    assert(all.subrange(48, 48 + n) =~= m.data);
    assert(all[48 + n] == f[0]);
}

/// Round trip of a vote request: decoding what was encoded gives the request
/// back, also when more bytes follow it.
pub proof fn lemma_vote_request_round_trip(m: VoteRequest, rest: Seq<u8>)
    ensures
        vote_request_parse(vote_request_wire(m)) == Some(m),
        vote_request_parse(vote_request_wire(m) + rest) == Some(m),
{
    vote_request_read_back(m, rest);
    vote_request_read_back(m, Seq::empty());
    assert(vote_request_wire(m) + Seq::<u8>::empty() =~= vote_request_wire(m));
}

/// Round trip of a vote response: decoding what was encoded gives the
/// response back, also when more bytes follow it.
pub proof fn lemma_vote_response_round_trip(m: VoteResponse, rest: Seq<u8>)
    ensures
        vote_response_parse(vote_response_wire(m)) == Some(m),
        vote_response_parse(vote_response_wire(m) + rest) == Some(m),
{
    vote_response_read_back(m, rest);
    vote_response_read_back(m, Seq::empty());
    assert(vote_response_wire(m) + Seq::<u8>::empty() =~= vote_response_wire(m));
}

/// Round trip of an append-entries response: decoding what was encoded gives
/// the response back, also when more bytes follow it.
pub proof fn lemma_append_entries_response_round_trip(m: AppendEntriesResponse, rest: Seq<u8>)
    ensures
        append_entries_response_parse(append_entries_response_wire(m)) == Some(m),
        append_entries_response_parse(append_entries_response_wire(m) + rest) == Some(m),
{
    append_entries_response_read_back(m, rest);
    append_entries_response_read_back(m, Seq::empty());
    assert(append_entries_response_wire(m) + Seq::<u8>::empty() =~= append_entries_response_wire(
        m,
    ));
}

/// Round trip of a snapshot chunk: decoding what was encoded gives the chunk
/// back, also when more bytes follow it. The chunk's length has to fit the
/// `u64` that it is written as, which the length of a vector always does.
pub proof fn lemma_install_snapshot_request_round_trip(m: SnapshotChunk, rest: Seq<u8>)
    requires
        m.data.len() <= u64::MAX,
    ensures
        install_snapshot_request_parse(install_snapshot_request_wire(m)) == Some(m),
        install_snapshot_request_parse(install_snapshot_request_wire(m) + rest) == Some(m),
{
    install_snapshot_request_read_back(m, rest);
    install_snapshot_request_read_back(m, Seq::empty());
    assert(install_snapshot_request_wire(m) + Seq::<u8>::empty() =~= install_snapshot_request_wire(
        m,
    ));
}

/// Round trip of a snapshot response: decoding what was encoded gives the
/// response back, also when more bytes follow it.
pub proof fn lemma_install_snapshot_response_round_trip(
    m: InstallSnapshotResponse,
    rest: Seq<u8>,
)
    ensures
        install_snapshot_response_parse(install_snapshot_response_wire(m)) == Some(m),
        install_snapshot_response_parse(install_snapshot_response_wire(m) + rest) == Some(m),
{
    install_snapshot_response_read_back(m, rest);
    install_snapshot_response_read_back(m, Seq::empty());
    assert(install_snapshot_response_wire(m) + Seq::<u8>::empty()
        =~= install_snapshot_response_wire(m));
}

} // verus!
