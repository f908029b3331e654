use raft_router::codec::{
    decode_append_entries_response, decode_install_snapshot_request,
    decode_install_snapshot_response, decode_vote_request, decode_vote_response, decoded,
    encode_append_entries_response, encode_install_snapshot_request,
    encode_install_snapshot_response, encode_vote_request, encode_vote_response, encoded,
};
use raft_router::message::{
    AppendEntriesResponse, ConflictOpt, InstallSnapshotRequest, InstallSnapshotResponse,
    VoteRequest, VoteResponse,
};

fn le(x: u64) -> Vec<u8> {
    x.to_le_bytes().to_vec()
}

fn sample_chunk() -> InstallSnapshotRequest {
    InstallSnapshotRequest {
        term: 9,
        leader_id: 1,
        last_included_index: 400,
        last_included_term: 8,
        offset: 65536,
        data: vec![0xde, 0xad, 0xbe, 0xef, 0x00],
        done: true,
    }
}

#[test]
fn vote_request_bytes_are_four_little_endian_words() {
    let m = VoteRequest { term: 5, candidate_id: 7, last_log_index: 0x0102030405060708, last_log_term: 4 };
    let bytes = encode_vote_request(&m).unwrap();
    let mut expected = vec![5u8, 0, 0, 0, 0, 0, 0, 0, 7, 0, 0, 0, 0, 0, 0, 0];
    expected.extend_from_slice(&[8, 7, 6, 5, 4, 3, 2, 1]);
    expected.extend_from_slice(&[4, 0, 0, 0, 0, 0, 0, 0]);
    assert_eq!(bytes, expected);
}

#[test]
fn vote_request_round_trip() {
    let m = VoteRequest { term: u64::MAX, candidate_id: 0, last_log_index: 1 << 40, last_log_term: 77 };
    let bytes = encode_vote_request(&m).unwrap();
    assert_eq!(decode_vote_request(&bytes), Ok(m));
}

#[test]
fn vote_request_matches_the_consensus_crate() {
    let m = VoteRequest { term: 11, candidate_id: 12, last_log_index: 13, last_log_term: 14 };
    let theirs = bincode::serialize(&async_raft::raft::VoteRequest::new(11, 12, 13, 14)).unwrap();
    assert_eq!(encode_vote_request(&m).unwrap(), theirs);
}

#[test]
fn vote_request_needs_thirty_two_bytes() {
    let bytes = vec![0u8; 31];
    assert!(decode_vote_request(&bytes).is_err());
    let bytes = vec![0u8; 32];
    assert_eq!(
        decode_vote_request(&bytes),
        Ok(VoteRequest { term: 0, candidate_id: 0, last_log_index: 0, last_log_term: 0 })
    );
}

#[test]
fn vote_request_ignores_what_follows() {
    let m = VoteRequest { term: 1, candidate_id: 2, last_log_index: 3, last_log_term: 4 };
    let mut bytes = encode_vote_request(&m).unwrap();
    bytes.extend_from_slice(&[0xff, 0xff, 0xff]);
    assert_eq!(decode_vote_request(&bytes), Ok(m));
}

#[test]
fn vote_response_bytes_are_term_and_flag() {
    let granted = VoteResponse { term: 258, vote_granted: true };
    assert_eq!(encode_vote_response(&granted).unwrap(), vec![2, 1, 0, 0, 0, 0, 0, 0, 1]);
    let refused = VoteResponse { term: 5, vote_granted: false };
    assert_eq!(encode_vote_response(&refused).unwrap(), vec![5, 0, 0, 0, 0, 0, 0, 0, 0]);
}

#[test]
fn vote_response_round_trip() {
    for m in [
        VoteResponse { term: 0, vote_granted: false },
        VoteResponse { term: u64::MAX, vote_granted: true },
    ] {
        let bytes = encode_vote_response(&m).unwrap();
        assert_eq!(decode_vote_response(&bytes), Ok(m));
    }
}

#[test]
fn vote_response_rejects_short_input() {
    assert!(decode_vote_response(&[]).is_err());
    assert!(decode_vote_response(&[1, 0, 0, 0, 0, 0, 0, 0]).is_err());
}

#[test]
fn vote_response_rejects_a_flag_that_is_neither_zero_nor_one() {
    assert!(decode_vote_response(&[1, 0, 0, 0, 0, 0, 0, 0, 2]).is_err());
    assert!(decode_vote_response(&[1, 0, 0, 0, 0, 0, 0, 0, 255]).is_err());
}

#[test]
fn vote_response_ignores_what_follows() {
    let bytes = [3u8, 0, 0, 0, 0, 0, 0, 0, 1, 9, 9, 9];
    assert_eq!(decode_vote_response(&bytes), Ok(VoteResponse { term: 3, vote_granted: true }));
}

#[test]
fn append_entries_response_without_conflict_is_ten_bytes() {
    let m = AppendEntriesResponse { term: 6, success: true, conflict_opt: None };
    assert_eq!(encode_append_entries_response(&m).unwrap(), vec![6, 0, 0, 0, 0, 0, 0, 0, 1, 0]);
}

#[test]
fn append_entries_response_with_conflict_is_twenty_six_bytes() {
    let m = AppendEntriesResponse {
        term: 6,
        success: false,
        conflict_opt: Some(ConflictOpt { term: 4, index: 0x0100 }),
    };
    let mut expected = vec![6u8, 0, 0, 0, 0, 0, 0, 0, 0, 1];
    expected.extend_from_slice(&le(4));
    expected.extend_from_slice(&[0, 1, 0, 0, 0, 0, 0, 0]);
    assert_eq!(encode_append_entries_response(&m).unwrap(), expected);
}

#[test]
fn append_entries_response_round_trip() {
    for m in [
        AppendEntriesResponse { term: 1, success: true, conflict_opt: None },
        AppendEntriesResponse { term: 2, success: false, conflict_opt: None },
        AppendEntriesResponse {
            term: u64::MAX,
            success: false,
            conflict_opt: Some(ConflictOpt { term: 3, index: 17 }),
        },
        AppendEntriesResponse {
            term: 0,
            success: true,
            conflict_opt: Some(ConflictOpt { term: u64::MAX, index: u64::MAX }),
        },
    ] {
        let bytes = encode_append_entries_response(&m).unwrap();
        assert_eq!(decode_append_entries_response(&bytes), Ok(m));
    }
}

#[test]
fn append_entries_response_rejects_malformed_input() {
    // too short for the tag
    assert!(decode_append_entries_response(&[1, 0, 0, 0, 0, 0, 0, 0, 1]).is_err());
    // success flag out of range
    assert!(decode_append_entries_response(&[1, 0, 0, 0, 0, 0, 0, 0, 3, 0]).is_err());
    // tag out of range
    assert!(decode_append_entries_response(&[1, 0, 0, 0, 0, 0, 0, 0, 1, 2]).is_err());
    // tag says there is a conflict, but it is cut short
    let mut cut = vec![1u8, 0, 0, 0, 0, 0, 0, 0, 1, 1];
    cut.extend_from_slice(&[0u8; 15]);
    assert!(decode_append_entries_response(&cut).is_err());
    cut.push(0);
    assert_eq!(
        decode_append_entries_response(&cut),
        Ok(AppendEntriesResponse {
            term: 1,
            success: true,
            conflict_opt: Some(ConflictOpt { term: 0, index: 0 }),
        })
    );
}

#[test]
fn append_entries_response_matches_the_consensus_crate() {
    let theirs = bincode::serialize(&async_raft::raft::AppendEntriesResponse {
        term: 21,
        success: false,
        conflict_opt: Some(async_raft::raft::ConflictOpt { term: 20, index: 300 }),
    })
    .unwrap();
    let m = AppendEntriesResponse {
        term: 21,
        success: false,
        conflict_opt: Some(ConflictOpt { term: 20, index: 300 }),
    };
    assert_eq!(encode_append_entries_response(&m).unwrap(), theirs);
    assert_eq!(decode_append_entries_response(&theirs), Ok(m));
}

#[test]
fn install_snapshot_request_bytes() {
    let bytes = encode_install_snapshot_request(&sample_chunk()).unwrap();
    let mut expected = Vec::new();
    expected.extend_from_slice(&le(9));
    expected.extend_from_slice(&le(1));
    expected.extend_from_slice(&le(400));
    expected.extend_from_slice(&le(8));
    expected.extend_from_slice(&le(65536));
    expected.extend_from_slice(&le(5));
    expected.extend_from_slice(&[0xde, 0xad, 0xbe, 0xef, 0x00]);
    expected.push(1);
    assert_eq!(bytes.len(), 54);
    assert_eq!(bytes, expected);
}

#[test]
fn install_snapshot_request_round_trip() {
    let m = sample_chunk();
    let bytes = encode_install_snapshot_request(&m).unwrap();
    assert_eq!(decode_install_snapshot_request(&bytes), Ok(m));
    let empty = InstallSnapshotRequest {
        term: 0,
        leader_id: 0,
        last_included_index: 0,
        last_included_term: 0,
        offset: 0,
        data: Vec::new(),
        done: false,
    };
    let bytes = encode_install_snapshot_request(&empty).unwrap();
    assert_eq!(bytes.len(), 49);
    assert_eq!(decode_install_snapshot_request(&bytes), Ok(empty));
}

#[test]
fn install_snapshot_request_rejects_malformed_input() {
    let good = encode_install_snapshot_request(&sample_chunk()).unwrap();
    // every proper prefix is cut short
    for cut in 0..good.len() {
        assert!(decode_install_snapshot_request(&good[..cut]).is_err());
    }
    // the flag after the data must be 0 or 1
    let mut bad_flag = good.clone();
    bad_flag[53] = 2;
    assert!(decode_install_snapshot_request(&bad_flag).is_err());
    // a length that promises more data than there is
    let mut long = good.clone();
    long[40] = 6;
    assert!(decode_install_snapshot_request(&long).is_err());
    let mut huge = good.clone();
    for b in &mut huge[40..48] {
        *b = 0xff;
    }
    assert!(decode_install_snapshot_request(&huge).is_err());
}

#[test]
fn install_snapshot_request_ignores_what_follows() {
    let mut bytes = encode_install_snapshot_request(&sample_chunk()).unwrap();
    bytes.extend_from_slice(&[7, 7]);
    assert_eq!(decode_install_snapshot_request(&bytes), Ok(sample_chunk()));
}

#[test]
fn install_snapshot_response_is_the_term() {
    let m = InstallSnapshotResponse { term: 0x0a0b };
    let bytes = encode_install_snapshot_response(&m).unwrap();
    assert_eq!(bytes, vec![0x0b, 0x0a, 0, 0, 0, 0, 0, 0]);
    assert_eq!(decode_install_snapshot_response(&bytes), Ok(m));
    assert!(decode_install_snapshot_response(&bytes[..7]).is_err());
}

#[test]
fn decode_errors_carry_a_message() {
    let e = decode_vote_response(&[0, 0, 0, 0, 0, 0, 0, 0, 9]).unwrap_err();
    assert!(!e.details.is_empty());
    let e = decode_vote_request(&[]).unwrap_err();
    assert!(!e.details.is_empty());
}

#[test]
fn outcomes_of_the_codec_are_passed_on() {
    assert_eq!(encoded(Ok(vec![1, 2, 3])), Ok(vec![1, 2, 3]));
    let failure: Box<bincode::ErrorKind> = Box::new(bincode::ErrorKind::SizeLimit);
    let expected = failure.to_string();
    assert_eq!(encoded(Err(failure)).unwrap_err().details, expected);
    assert_eq!(decoded::<u8>(Ok(4)), Ok(4));
    let failure: Box<bincode::ErrorKind> = Box::new(bincode::ErrorKind::InvalidBoolEncoding(7));
    let expected = failure.to_string();
    assert_eq!(decoded::<u8>(Err(failure)).unwrap_err().details, expected);
}
