//! Encoding and decoding of the plain consensus messages.
//!
//! The bytes are made and read by bincode, on the message types of
//! async-raft; the functions here state what those bytes are.
//!
//! Encoding one of these messages always succeeds. `bincode::serialize` can
//! fail in four ways: a size limit is passed, the sink refuses a write, a
//! sequence does not know its length, or a value's own `Serialize` fails. It
//! sets no limit (`Infinite::add` returns `Ok`), it writes into a `Vec<u8>`,
//! a vector knows its length, and the fields are integers, flags, an option
//! and a byte vector, whose `Serialize` only calls the serializer.

use vstd::prelude::*;
use crate::error::{DecodeError, EncodeError};
use crate::message::{
    AppendEntriesResponse, ConflictOpt, InstallSnapshotRequest, InstallSnapshotResponse,
    VoteRequest, VoteResponse,
};
use crate::wire::{
    append_entries_response_parse, append_entries_response_wire, install_snapshot_request_parse,
    install_snapshot_request_wire, install_snapshot_response_parse,
    install_snapshot_response_wire, vote_request_parse, vote_request_wire, vote_response_parse,
    vote_response_wire,
};

verus! {

/// `bincode::ErrorKind`, what bincode reports when it fails: carried, and
/// turned into text.
#[verifier::external_type_specification]
#[verifier::external_body]
pub struct ExErrorKind(bincode::ErrorKind);

/// `bincode::serialize` on `async_raft::raft::VoteRequest`. Claimed: it
/// succeeds, and the bytes are the fields `term`, `candidate_id`,
/// `last_log_index`, `last_log_term`, eight little-endian bytes each.
#[verifier::external_body]
fn serialize_vote_request(m: &VoteRequest) -> (r: Result<Vec<u8>, Box<bincode::ErrorKind>>)
    ensures
        r is Ok,
        r matches Ok(bytes) ==> bytes@ == vote_request_wire(*m),
{
    bincode::serialize(
        &async_raft::raft::VoteRequest {
            term: m.term,
            candidate_id: m.candidate_id,
            last_log_index: m.last_log_index,
            last_log_term: m.last_log_term,
        },
    )
}

/// `bincode::deserialize` to `async_raft::raft::VoteRequest`. Claimed: it
/// succeeds exactly when there are 32 bytes or more, and reads the four
/// fields from the first 32.
#[verifier::external_body]
fn deserialize_vote_request(bytes: &[u8]) -> (r: Result<VoteRequest, Box<bincode::ErrorKind>>)
    ensures
        r matches Ok(m) ==> vote_request_parse(bytes@) == Some(m),
        r is Err ==> vote_request_parse(bytes@) is None,
{
    bincode::deserialize::<async_raft::raft::VoteRequest>(bytes).map(
        |m| VoteRequest {
            term: m.term,
            candidate_id: m.candidate_id,
            last_log_index: m.last_log_index,
            last_log_term: m.last_log_term,
        },
    )
}

/// `bincode::serialize` on `async_raft::raft::VoteResponse`. Claimed: it
/// succeeds, and the bytes are `term` as eight little-endian bytes and one byte
/// for `vote_granted`, 1 or 0.
#[verifier::external_body]
fn serialize_vote_response(m: &VoteResponse) -> (r: Result<Vec<u8>, Box<bincode::ErrorKind>>)
    ensures
        r is Ok,
        r matches Ok(bytes) ==> bytes@ == vote_response_wire(*m),
{
    bincode::serialize(
        &async_raft::raft::VoteResponse { term: m.term, vote_granted: m.vote_granted },
    )
}

/// `bincode::deserialize` to `async_raft::raft::VoteResponse`. Claimed: it
/// succeeds exactly when there are nine bytes or more and the ninth is 0 or
/// 1; `term` is read from the first eight, `vote_granted` from the ninth.
#[verifier::external_body]
fn deserialize_vote_response(bytes: &[u8]) -> (r: Result<VoteResponse, Box<bincode::ErrorKind>>)
    ensures
        r matches Ok(m) ==> vote_response_parse(bytes@) == Some(m),
        r is Err ==> vote_response_parse(bytes@) is None,
{
    bincode::deserialize::<async_raft::raft::VoteResponse>(bytes).map(
        |m| VoteResponse { term: m.term, vote_granted: m.vote_granted },
    )
}

/// `bincode::serialize` on `async_raft::raft::AppendEntriesResponse`.
/// Claimed: it succeeds, and the bytes are `term`, one byte for `success`,
/// and for `conflict_opt` a tag byte, 0 if there is none, else 1 followed by
/// the conflict's `term` and `index`.
#[verifier::external_body]
fn serialize_append_entries_response(m: &AppendEntriesResponse) -> (r: Result<
    Vec<u8>,
    Box<bincode::ErrorKind>,
>)
    ensures
        r is Ok,
        r matches Ok(bytes) ==> bytes@ == append_entries_response_wire(*m),
{
    bincode::serialize(
        &async_raft::raft::AppendEntriesResponse {
            term: m.term,
            success: m.success,
            conflict_opt: m.conflict_opt.map(
                |c| async_raft::raft::ConflictOpt { term: c.term, index: c.index },
            ),
        },
    )
}

/// `bincode::deserialize` to `async_raft::raft::AppendEntriesResponse`.
/// Claimed: it succeeds exactly when the bytes start with a whole response:
/// eight bytes of `term`, a byte 0 or 1 for `success`, and a tag byte that is
/// 0, or 1 with sixteen more bytes behind it.
#[verifier::external_body]
fn deserialize_append_entries_response(bytes: &[u8]) -> (r: Result<
    AppendEntriesResponse,
    Box<bincode::ErrorKind>,
>)
    ensures
        r matches Ok(m) ==> append_entries_response_parse(bytes@) == Some(m),
        r is Err ==> append_entries_response_parse(bytes@) is None,
{
    bincode::deserialize::<async_raft::raft::AppendEntriesResponse>(bytes).map(
        |m| AppendEntriesResponse {
            term: m.term,
            success: m.success,
            conflict_opt: m.conflict_opt.map(|c| ConflictOpt { term: c.term, index: c.index }),
        },
    )
}

/// `bincode::serialize` on `async_raft::raft::InstallSnapshotRequest`.
/// Claimed: it succeeds, and the bytes are the five integer fields in
/// declaration order, the length of `data` as a `u64`, the bytes of `data`,
/// and one byte for `done`.
#[verifier::external_body]
fn serialize_install_snapshot_request(m: &InstallSnapshotRequest) -> (r: Result<
    Vec<u8>,
    Box<bincode::ErrorKind>,
>)
    ensures
        r is Ok,
        r matches Ok(bytes) ==> bytes@ == install_snapshot_request_wire(m@),
{
    bincode::serialize(
        &async_raft::raft::InstallSnapshotRequest {
            term: m.term,
            leader_id: m.leader_id,
            last_included_index: m.last_included_index,
            last_included_term: m.last_included_term,
            offset: m.offset,
            data: m.data.clone(),
            done: m.done,
        },
    )
}

/// `bincode::deserialize` to `async_raft::raft::InstallSnapshotRequest`.
/// Claimed: it succeeds exactly when the bytes start with a whole chunk: 48
/// bytes for the five integer fields and the length, as many bytes of data as
/// the length says, and a byte 0 or 1 for `done`.
#[verifier::external_body]
fn deserialize_install_snapshot_request(bytes: &[u8]) -> (r: Result<
    InstallSnapshotRequest,
    Box<bincode::ErrorKind>,
>)
    ensures
        r matches Ok(m) ==> install_snapshot_request_parse(bytes@) == Some(m@),
        r is Err ==> install_snapshot_request_parse(bytes@) is None,
{
    bincode::deserialize::<async_raft::raft::InstallSnapshotRequest>(bytes).map(
        |m| InstallSnapshotRequest {
            term: m.term,
            leader_id: m.leader_id,
            last_included_index: m.last_included_index,
            last_included_term: m.last_included_term,
            offset: m.offset,
            data: m.data,
            done: m.done,
        },
    )
}

/// `bincode::serialize` on `async_raft::raft::InstallSnapshotResponse`.
/// Claimed: it succeeds, and the bytes are `term` as eight little-endian
/// bytes.
#[verifier::external_body]
fn serialize_install_snapshot_response(m: &InstallSnapshotResponse) -> (r: Result<
    Vec<u8>,
    Box<bincode::ErrorKind>,
>)
    ensures
        r is Ok,
        r matches Ok(bytes) ==> bytes@ == install_snapshot_response_wire(*m),
{
    bincode::serialize(&async_raft::raft::InstallSnapshotResponse { term: m.term })
}

/// `bincode::deserialize` to `async_raft::raft::InstallSnapshotResponse`.
/// Claimed: it succeeds exactly when there are eight bytes or more, and
/// reads `term` from the first eight.
#[verifier::external_body]
fn deserialize_install_snapshot_response(bytes: &[u8]) -> (r: Result<
    InstallSnapshotResponse,
    Box<bincode::ErrorKind>,
>)
    ensures
        r matches Ok(m) ==> install_snapshot_response_parse(bytes@) == Some(m),
        r is Err ==> install_snapshot_response_parse(bytes@) is None,
{
    bincode::deserialize::<async_raft::raft::InstallSnapshotResponse>(bytes).map(
        |m| InstallSnapshotResponse { term: m.term },
    )
}

/// `ToString::to_string` on a bincode error: the text that its `Display`
/// writes. Nothing is claimed of the text.
#[verifier::external_body]
fn error_text(e: &bincode::ErrorKind) -> String {
    e.to_string()
}

/// What an encoding attempt becomes for the caller: the bytes as they are, or
/// an [`EncodeError`] that carries bincode's message.
pub fn encoded(outcome: Result<Vec<u8>, Box<bincode::ErrorKind>>) -> (r: Result<
    Vec<u8>,
    EncodeError,
>)
    ensures
        match outcome {
            Ok(bytes) => r == Ok::<Vec<u8>, EncodeError>(bytes),
            Err(_) => r is Err,
        },
{
    match outcome {
        Ok(bytes) => Ok(bytes),
        Err(e) => Err(EncodeError { details: error_text(&*e) }),
    }
}

/// What a decoding attempt becomes for the caller: the message as it is, or a
/// [`DecodeError`] that carries bincode's message.
pub fn decoded<M>(outcome: Result<M, Box<bincode::ErrorKind>>) -> (r: Result<M, DecodeError>)
    ensures
        match outcome {
            Ok(m) => r == Ok::<M, DecodeError>(m),
            Err(_) => r is Err,
        },
{
    match outcome {
        Ok(m) => Ok(m),
        Err(e) => Err(DecodeError { details: error_text(&*e) }),
    }
}

/// The bytes of a vote request. Always `Ok`: nothing in a vote request can
/// fail to encode.
pub fn encode_vote_request(m: &VoteRequest) -> (r: Result<Vec<u8>, EncodeError>)
    ensures
        r is Ok,
        r matches Ok(bytes) ==> bytes@ == vote_request_wire(*m),
{
    encoded(serialize_vote_request(m))
}

pub fn decode_vote_request(bytes: &[u8]) -> (r: Result<VoteRequest, DecodeError>)
    ensures
        match vote_request_parse(bytes@) {
            Some(m) => r == Ok::<VoteRequest, DecodeError>(m),
            None => r is Err,
        },
{
    decoded(deserialize_vote_request(bytes))
}

/// The bytes of a vote response. Always `Ok`: nothing in a vote response
/// can fail to encode.
pub fn encode_vote_response(m: &VoteResponse) -> (r: Result<Vec<u8>, EncodeError>)
    ensures
        r is Ok,
        r matches Ok(bytes) ==> bytes@ == vote_response_wire(*m),
{
    encoded(serialize_vote_response(m))
}

pub fn decode_vote_response(bytes: &[u8]) -> (r: Result<VoteResponse, DecodeError>)
    ensures
        match vote_response_parse(bytes@) {
            Some(m) => r == Ok::<VoteResponse, DecodeError>(m),
            None => r is Err,
        },
{
    decoded(deserialize_vote_response(bytes))
}

/// The bytes of an append-entries response. Always `Ok`: nothing in the
/// response can fail to encode.
pub fn encode_append_entries_response(m: &AppendEntriesResponse) -> (r: Result<
    Vec<u8>,
    EncodeError,
>)
    ensures
        r is Ok,
        r matches Ok(bytes) ==> bytes@ == append_entries_response_wire(*m),
{
    encoded(serialize_append_entries_response(m))
}

pub fn decode_append_entries_response(bytes: &[u8]) -> (r: Result<
    AppendEntriesResponse,
    DecodeError,
>)
    ensures
        match append_entries_response_parse(bytes@) {
            Some(m) => r == Ok::<AppendEntriesResponse, DecodeError>(m),
            None => r is Err,
        },
{
    decoded(deserialize_append_entries_response(bytes))
}

/// The bytes of a snapshot chunk. Always `Ok`: nothing in a chunk can fail
/// to encode.
pub fn encode_install_snapshot_request(m: &InstallSnapshotRequest) -> (r: Result<
    Vec<u8>,
    EncodeError,
>)
    ensures
        r is Ok,
        r matches Ok(bytes) ==> bytes@ == install_snapshot_request_wire(m@),
{
    encoded(serialize_install_snapshot_request(m))
}

pub fn decode_install_snapshot_request(bytes: &[u8]) -> (r: Result<
    InstallSnapshotRequest,
    DecodeError,
>)
    ensures
        match install_snapshot_request_parse(bytes@) {
            Some(m) => r matches Ok(got) && got@ == m,
            None => r is Err,
        },
{
    decoded(deserialize_install_snapshot_request(bytes))
}

/// The bytes of a snapshot response. Always `Ok`: nothing in the response
/// can fail to encode.
pub fn encode_install_snapshot_response(m: &InstallSnapshotResponse) -> (r: Result<
    Vec<u8>,
    EncodeError,
>)
    ensures
        r is Ok,
        r matches Ok(bytes) ==> bytes@ == install_snapshot_response_wire(*m),
{
    encoded(serialize_install_snapshot_response(m))
}

pub fn decode_install_snapshot_response(bytes: &[u8]) -> (r: Result<
    InstallSnapshotResponse,
    DecodeError,
>)
    ensures
        match install_snapshot_response_parse(bytes@) {
            Some(m) => r == Ok::<InstallSnapshotResponse, DecodeError>(m),
            None => r is Err,
        },
{
    decoded(deserialize_install_snapshot_response(bytes))
}

} // verus!
