use tari_dan::rpc::{
    payload_id_from_response, peer_from_reply, substate_result_from_response, transaction_result_from_response,
    undecodable_result_error, GetSubstateResponse, GetTransactionResultResponse, PayloadResultStatus, SubstateResult,
    SubstateStatus, TransactionResultStatus, ValidatorNodeRpcClientError,
};

fn message<T>(r: Result<T, ValidatorNodeRpcClientError>) -> String {
    match r {
        Err(ValidatorNodeRpcClientError::InvalidResponse(m)) => m,
        _ => panic!("expected an invalid-response error"),
    }
}

fn substate_resp(status: i32, created: usize, destroyed: usize) -> GetSubstateResponse {
    GetSubstateResponse {
        status,
        substate: vec![1, 2, 3],
        created_transaction_hash: vec![7; created],
        destroyed_transaction_hash: vec![8; destroyed],
        version: 4,
    }
}

#[test]
fn status_numbers() {
    assert!(SubstateStatus::from_i32(0) == Some(SubstateStatus::Up));
    assert!(SubstateStatus::from_i32(1) == Some(SubstateStatus::Down));
    assert!(SubstateStatus::from_i32(2) == Some(SubstateStatus::DoesNotExist));
    assert!(SubstateStatus::from_i32(3).is_none());
    assert!(SubstateStatus::from_i32(-1).is_none());
    assert!(PayloadResultStatus::from_i32(0) == Some(PayloadResultStatus::Pending));
    assert!(PayloadResultStatus::from_i32(1) == Some(PayloadResultStatus::Finalized));
    assert!(PayloadResultStatus::from_i32(2).is_none());
}

#[test]
fn payload_id_needs_32_bytes() {
    let id = payload_id_from_response(vec![3; 32]).ok().unwrap();
    assert_eq!(id.as_bytes(), &[3u8; 32]);
    assert_eq!(message(payload_id_from_response(vec![])), "Node returned an invalid or empty payload id");
    assert_eq!(message(payload_id_from_response(vec![3; 33])), "Node returned an invalid or empty payload id");
}

#[test]
fn substate_up() {
    match substate_result_from_response(substate_resp(0, 32, 0)) {
        Ok(SubstateResult::Up { substate, created_by_tx }) => {
            assert_eq!(substate, vec![1, 2, 3]);
            assert_eq!(created_by_tx.into_array(), [7u8; 32]);
        },
        _ => panic!("expected up"),
    }
    assert_eq!(
        message(substate_result_from_response(substate_resp(0, 31, 32))),
        "Node returned an invalid or empty transaction hash"
    );
}

#[test]
fn substate_down() {
    match substate_result_from_response(substate_resp(1, 32, 32)) {
        Ok(SubstateResult::Down { version, created_by_tx, deleted_by_tx }) => {
            assert_eq!(version, 4);
            assert_eq!(created_by_tx.into_array(), [7u8; 32]);
            assert_eq!(deleted_by_tx.into_array(), [8u8; 32]);
        },
        _ => panic!("expected down"),
    }
    assert_eq!(
        message(substate_result_from_response(substate_resp(1, 0, 0))),
        "Node returned an invalid or empty created transaction hash"
    );
    assert_eq!(
        message(substate_result_from_response(substate_resp(1, 32, 5))),
        "Node returned an invalid or empty destroyed transaction hash"
    );
}

#[test]
fn substate_does_not_exist() {
    assert!(matches!(substate_result_from_response(substate_resp(2, 0, 0)), Ok(SubstateResult::DoesNotExist)));
}

#[test]
fn substate_invalid_status() {
    assert_eq!(message(substate_result_from_response(substate_resp(3, 32, 32))), "Node returned invalid substate status 3");
    assert_eq!(message(substate_result_from_response(substate_resp(-17, 32, 32))), "Node returned invalid substate status -17");
    assert_eq!(
        message(substate_result_from_response(substate_resp(i32::MIN, 32, 32))),
        "Node returned invalid substate status -2147483648"
    );
    assert_eq!(
        message(substate_result_from_response(substate_resp(i32::MAX, 32, 32))),
        "Node returned invalid substate status 2147483647"
    );
}

#[test]
fn transaction_results() {
    let pending = transaction_result_from_response(GetTransactionResultResponse { status: 0, execution_result: vec![5] });
    assert!(matches!(pending, Ok(TransactionResultStatus::Pending)));
    let fin = transaction_result_from_response(GetTransactionResultResponse { status: 1, execution_result: vec![5, 6] });
    match fin {
        Ok(TransactionResultStatus::Finalized(b)) => assert_eq!(b, vec![5, 6]),
        _ => panic!("expected finalized"),
    }
    assert_eq!(
        message(transaction_result_from_response(GetTransactionResultResponse { status: 10, execution_result: vec![] })),
        "Node returned invalid payload status 10"
    );
    assert!(matches!(undecodable_result_error(), ValidatorNodeRpcClientError::InvalidResponse(m) if m == "Node returned an invalid or empty payload id"));
}

#[test]
fn into_finalized_clones_result() {
    let s: TransactionResultStatus<Vec<u8>> = TransactionResultStatus::Finalized(vec![1, 2]);
    assert_eq!(s.into_finalized(), Some(vec![1, 2]));
    let p: TransactionResultStatus<Vec<u8>> = TransactionResultStatus::Pending;
    assert_eq!(p.into_finalized(), None);
}

// The compressed Ristretto base point.
const BASE_POINT: [u8; 32] = [
    0xe2, 0xf2, 0xae, 0x0a, 0x6a, 0xbc, 0x4e, 0x71, 0xa8, 0x84, 0xa9, 0x61, 0xc5, 0x00, 0x51, 0x5f, 0x58, 0xe3, 0x0b,
    0x6a, 0xa5, 0x82, 0xdd, 0x8d, 0xb6, 0xa6, 0x59, 0x45, 0xe0, 0x8d, 0x2d, 0x76,
];

#[test]
fn peer_pairs_addresses_with_claims() {
    let peer = peer_from_reply(vec![Some("a"), Some("b"), Some("c")], vec![Some(1), Some(2)], &BASE_POINT).ok().unwrap();
    assert_eq!(peer.addresses, vec![("a", 1), ("b", 2)]);
    assert_eq!(peer.identity.into_array(), BASE_POINT);
    let peer = peer_from_reply::<&str, u8>(vec![], vec![Some(1)], &[0u8; 32]).ok().unwrap();
    assert!(peer.addresses.is_empty());
    assert_eq!(peer.identity.into_array(), [0u8; 32]);
}

#[test]
fn peer_errors_in_order() {
    assert_eq!(message(peer_from_reply::<i32, i32>(vec![Some(1), None], vec![None], &[1u8; 3])), "Invalid address");
    assert_eq!(message(peer_from_reply(vec![Some(1)], vec![Some(2), None], &[1u8; 3])), "Invalid claim");
    assert_eq!(message(peer_from_reply(vec![Some(1)], vec![Some(2)], &[1u8; 3])), "Invalid identity");
    let mut bad = BASE_POINT;
    bad[31] ^= 0xff;
    assert_eq!(message(peer_from_reply(vec![Some(1)], vec![Some(2)], &bad)), "Invalid identity");
}

use tari_dan::rpc::{connection_action, peers_from_replies, ConnectionAction, PeerReply};

fn reply(ok: bool) -> Result<PeerReply<u8, u8>, ValidatorNodeRpcClientError> {
    Ok(PeerReply {
        addresses: vec![Some(1), Some(2)],
        claims: vec![Some(10), Some(20)],
        identity: if ok { BASE_POINT.to_vec() } else { vec![1, 2, 3] },
    })
}

// The identity point encoded as all zero bytes.
fn identity_reply() -> Result<PeerReply<u8, u8>, ValidatorNodeRpcClientError> {
    Ok(PeerReply { addresses: vec![Some(3)], claims: vec![Some(30)], identity: vec![0u8; 32] })
}

#[test]
fn peers_from_all_valid_replies() {
    let peers = peers_from_replies(vec![reply(true), reply(true)]).ok().unwrap();
    assert_eq!(peers.len(), 2);
    assert_eq!(peers[1].addresses, vec![(1, 10), (2, 20)]);
    let peers = peers_from_replies(vec![reply(true), identity_reply()]).ok().unwrap();
    assert_eq!(peers[0].identity.into_array(), BASE_POINT);
    assert_eq!(peers[1].identity.into_array(), [0u8; 32]);
    assert_eq!(peers[1].addresses, vec![(3, 30)]);
    assert!(peers_from_replies::<u8, u8>(vec![]).ok().unwrap().is_empty());
}

#[test]
fn peers_first_failure_decides() {
    let r = peers_from_replies(vec![
        reply(true),
        Err(ValidatorNodeRpcClientError::Rpc("stream broke".to_string())),
        reply(false),
    ]);
    assert!(matches!(r, Err(ValidatorNodeRpcClientError::Rpc(m)) if m == "stream broke"));
    let r = peers_from_replies(vec![
        reply(true),
        reply(false),
        Err(ValidatorNodeRpcClientError::Rpc("later".to_string())),
    ]);
    assert_eq!(message(r), "Invalid identity");
}

#[test]
fn connection_reuse_or_dial() {
    assert!(connection_action(Some(true)) == ConnectionAction::Reuse);
    assert!(connection_action(Some(false)) == ConnectionAction::Dial { cache: false });
    assert!(connection_action(None) == ConnectionAction::Dial { cache: false });
}
