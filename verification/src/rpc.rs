use vstd::prelude::*;
use crate::hash::FixedHash;
use crate::text::{append_signed_decimal, signed_decimal};
use crate::template_crypto::{copy_into_array32, RistrettoPublicKeyBytes};
use tari_crypto::ristretto::RistrettoPublicKey;
use tari_crypto::tari_utilities::ByteArray;

verus! {

/// The state of a substate as a validator node reports it.
#[derive(Clone, Copy, PartialEq, Eq, Structural)]
pub enum SubstateStatus {
    Up,
    Down,
    DoesNotExist,
}

/// The status that a wire value denotes, if any.
pub open spec fn substate_status_of(value: i32) -> Option<SubstateStatus> {
    if value == 0 {
        Some(SubstateStatus::Up)
    } else if value == 1 {
        Some(SubstateStatus::Down)
    } else if value == 2 {
        Some(SubstateStatus::DoesNotExist)
    } else {
        None
    }
}

impl SubstateStatus {
    pub fn from_i32(value: i32) -> (r: Option<SubstateStatus>)
        ensures
            r == substate_status_of(value),
    {
        if value == 0 {
            Some(SubstateStatus::Up)
        } else if value == 1 {
            Some(SubstateStatus::Down)
        } else if value == 2 {
            Some(SubstateStatus::DoesNotExist)
        } else {
            None
        }
    }
}

/// The state of a transaction's result as a validator node reports it.
#[derive(Clone, Copy, PartialEq, Eq, Structural)]
pub enum PayloadResultStatus {
    Pending,
    Finalized,
}

/// The status that a wire value denotes, if any.
pub open spec fn payload_result_status_of(value: i32) -> Option<PayloadResultStatus> {
    if value == 0 {
        Some(PayloadResultStatus::Pending)
    } else if value == 1 {
        Some(PayloadResultStatus::Finalized)
    } else {
        None
    }
}

impl PayloadResultStatus {
    pub fn from_i32(value: i32) -> (r: Option<PayloadResultStatus>)
        ensures
            r == payload_result_status_of(value),
    {
        if value == 0 {
            Some(PayloadResultStatus::Pending)
        } else if value == 1 {
            Some(PayloadResultStatus::Finalized)
        } else {
            None
        }
    }
}

/// The errors of a validator node RPC client.
pub enum ValidatorNodeRpcClientError {
    /// The node's reply did not have the expected form.
    InvalidResponse(String),
    /// The call to the node failed.
    Rpc(String),
}

/// Whether `r` is an invalid-response error with the message `msg`.
pub open spec fn is_invalid_response<T>(r: Result<T, ValidatorNodeRpcClientError>, msg: Seq<char>) -> bool {
    r matches Err(ValidatorNodeRpcClientError::InvalidResponse(m)) && m@ == msg
}

/// The identifier of a submitted payload: 32 bytes.
#[derive(Clone, Copy)]
pub struct PayloadId(pub [u8; 32]);

impl View for PayloadId {
    type V = Seq<u8>;

    open spec fn view(&self) -> Seq<u8> {
        self.0@
    }
}

impl PayloadId {
    pub fn as_bytes(&self) -> (r: &[u8])
        ensures
            r@ == self@,
    {
        self.0.as_slice()
    }
}

/// A node's reply to a substate request, as plain values.
pub struct GetSubstateResponse {
    pub status: i32,
    pub substate: Vec<u8>,
    pub created_transaction_hash: Vec<u8>,
    pub destroyed_transaction_hash: Vec<u8>,
    pub version: u32,
}

/// A node's reply to a transaction-result request, as plain values.
pub struct GetTransactionResultResponse {
    pub status: i32,
    pub execution_result: Vec<u8>,
}

/// What a node knows of a substate. `S` is the substate's representation:
/// its encoded bytes as they arrive, or the decoded value.
pub enum SubstateResult<S> {
    DoesNotExist,
    Up { substate: S, created_by_tx: FixedHash },
    Down { version: u32, created_by_tx: FixedHash, deleted_by_tx: FixedHash },
}

/// The result of a transaction as a node reports it. `R` is the result's
/// representation: its encoded bytes as they arrive, or the decoded value.
pub enum TransactionResultStatus<R> {
    Pending,
    Finalized(R),
}

impl<R: Clone> TransactionResultStatus<R> {
    /// The finalized result, if there is one.
    pub fn into_finalized(&self) -> (r: Option<R>)
        ensures
            r is Some <==> self is Finalized,
            r matches Some(x) ==> (*self matches TransactionResultStatus::Finalized(y) && cloned::<R>(y, x)),
    {
        match self {
            TransactionResultStatus::Pending => None,
            TransactionResultStatus::Finalized(result) => Some(result.clone()),
        }
    }
}

pub open spec fn msg_invalid_payload_id() -> Seq<char> {
    "Node returned an invalid or empty payload id"@
}

pub open spec fn msg_invalid_tx_hash() -> Seq<char> {
    "Node returned an invalid or empty transaction hash"@
}

pub open spec fn msg_invalid_created_tx_hash() -> Seq<char> {
    "Node returned an invalid or empty created transaction hash"@
}

pub open spec fn msg_invalid_destroyed_tx_hash() -> Seq<char> {
    "Node returned an invalid or empty destroyed transaction hash"@
}

pub open spec fn msg_invalid_substate_status(status: i32) -> Seq<char> {
    "Node returned invalid substate status "@ + signed_decimal(status as int)
}

pub open spec fn msg_invalid_payload_status(status: i32) -> Seq<char> {
    "Node returned invalid payload status "@ + signed_decimal(status as int)
}

fn invalid_response(msg: &str) -> (r: ValidatorNodeRpcClientError)
    ensures
        r matches ValidatorNodeRpcClientError::InvalidResponse(m) && m@ == msg@,
{
    ValidatorNodeRpcClientError::InvalidResponse(String::from_str(msg))
}

/// Reads the identifier that a node returned for a submitted transaction.
pub fn payload_id_from_response(transaction_hash: Vec<u8>) -> (r: Result<PayloadId, ValidatorNodeRpcClientError>)
    ensures
        transaction_hash@.len() == 32 <==> r is Ok,
        r matches Ok(id) ==> id@ == transaction_hash@,
        transaction_hash@.len() != 32 ==> is_invalid_response(r, msg_invalid_payload_id()),
{
    match FixedHash::try_from_vec(transaction_hash) {
        Ok(h) => Ok(PayloadId(h.into_array())),
        Err(_) => Err(invalid_response("Node returned an invalid or empty payload id")),
    }
}

/// What a substate reply says, with the substate left as its encoded bytes:
/// the status decides the variant, and each transaction hash that the
/// variant carries must be 32 bytes, checked in the order created, destroyed.
pub open spec fn substate_reply_outcome(
    resp: GetSubstateResponse,
    r: Result<SubstateResult<Vec<u8>>, ValidatorNodeRpcClientError>,
) -> bool {
    match substate_status_of(resp.status) {
        None => is_invalid_response(r, msg_invalid_substate_status(resp.status)),
        Some(SubstateStatus::Up) => if resp.created_transaction_hash@.len() == 32 {
            r matches Ok(SubstateResult::Up { substate, created_by_tx })
                && substate@ == resp.substate@
                && created_by_tx@ == resp.created_transaction_hash@
        } else {
            is_invalid_response(r, msg_invalid_tx_hash())
        },
        Some(SubstateStatus::Down) => if resp.created_transaction_hash@.len() != 32 {
            is_invalid_response(r, msg_invalid_created_tx_hash())
        } else if resp.destroyed_transaction_hash@.len() != 32 {
            is_invalid_response(r, msg_invalid_destroyed_tx_hash())
        } else {
            r matches Ok(SubstateResult::Down { version, created_by_tx, deleted_by_tx })
                && version == resp.version
                && created_by_tx@ == resp.created_transaction_hash@
                && deleted_by_tx@ == resp.destroyed_transaction_hash@
        },
        Some(SubstateStatus::DoesNotExist) => r matches Ok(SubstateResult::DoesNotExist),
    }
}

/// A substate reply is read without altering what the node sent: the reply
/// is `Up` exactly when the node says so and sends a 32-byte creating hash,
/// and then it holds the node's substate and that hash byte for byte, in
/// order; a `Down` reply likewise holds the node's version and both hashes
/// exactly as sent.
pub proof fn lemma_substate_reply_keeps_node_values(
    resp: GetSubstateResponse,
    r: Result<SubstateResult<Vec<u8>>, ValidatorNodeRpcClientError>,
)
    requires
        substate_reply_outcome(resp, r),
    ensures
        (r matches Ok(SubstateResult::Up { .. })) <==> (resp.status == 0
            && resp.created_transaction_hash@.len() == 32),
        r matches Ok(SubstateResult::Up { substate, created_by_tx }) ==> substate@ == resp.substate@
            && created_by_tx@.len() == resp.created_transaction_hash@.len() && forall|i: int|
            0 <= i < created_by_tx@.len() ==> created_by_tx@[i] == resp.created_transaction_hash@[i],
        r matches Ok(SubstateResult::Down { version, created_by_tx, deleted_by_tx }) ==> resp.status == 1
            && version == resp.version && forall|i: int|
            0 <= i < 32 ==> created_by_tx@[i] == resp.created_transaction_hash@[i]
                && deleted_by_tx@[i] == resp.destroyed_transaction_hash@[i],
{
}

/// Interprets a node's reply to a substate request.
pub fn substate_result_from_response(resp: GetSubstateResponse) -> (r: Result<
    SubstateResult<Vec<u8>>,
    ValidatorNodeRpcClientError,
>)
    ensures
        substate_reply_outcome(resp, r),
{
    let ghost old_resp = resp;
    let status = match SubstateStatus::from_i32(resp.status) {
        Some(s) => s,
        None => {
            let mut msg = String::from_str("Node returned invalid substate status ");
            append_signed_decimal(&mut msg, resp.status);
            return Err(ValidatorNodeRpcClientError::InvalidResponse(msg));
        },
    };
    match status {
        SubstateStatus::Up => {
            let tx_hash = match FixedHash::try_from_vec(resp.created_transaction_hash) {
                Ok(h) => h,
                Err(_) => {
                    return Err(invalid_response("Node returned an invalid or empty transaction hash"));
                },
            };
            Ok(SubstateResult::Up { substate: resp.substate, created_by_tx: tx_hash })
        },
        SubstateStatus::Down => {
            let created_by_tx = match FixedHash::try_from_vec(resp.created_transaction_hash) {
                Ok(h) => h,
                Err(_) => {
                    return Err(
                        invalid_response("Node returned an invalid or empty created transaction hash"),
                    );
                },
            };
            let deleted_by_tx = match FixedHash::try_from_vec(resp.destroyed_transaction_hash) {
                Ok(h) => h,
                Err(_) => {
                    return Err(
                        invalid_response("Node returned an invalid or empty destroyed transaction hash"),
                    );
                },
            };
            Ok(SubstateResult::Down { version: resp.version, created_by_tx, deleted_by_tx })
        },
        SubstateStatus::DoesNotExist => Ok(SubstateResult::DoesNotExist),
    }
}

/// What a transaction-result reply says, with the result left as its encoded
/// bytes.
pub open spec fn transaction_reply_outcome(
    resp: GetTransactionResultResponse,
    r: Result<TransactionResultStatus<Vec<u8>>, ValidatorNodeRpcClientError>,
) -> bool {
    match payload_result_status_of(resp.status) {
        Some(PayloadResultStatus::Pending) => r matches Ok(TransactionResultStatus::Pending),
        Some(PayloadResultStatus::Finalized) => r matches Ok(TransactionResultStatus::Finalized(bytes))
            && bytes@ == resp.execution_result@,
        None => is_invalid_response(r, msg_invalid_payload_status(resp.status)),
    }
}

/// Interprets a node's reply to a transaction-result request.
pub fn transaction_result_from_response(resp: GetTransactionResultResponse) -> (r: Result<
    TransactionResultStatus<Vec<u8>>,
    ValidatorNodeRpcClientError,
>)
    ensures
        transaction_reply_outcome(resp, r),
{
    match PayloadResultStatus::from_i32(resp.status) {
        Some(PayloadResultStatus::Pending) => Ok(TransactionResultStatus::Pending),
        Some(PayloadResultStatus::Finalized) => Ok(TransactionResultStatus::Finalized(resp.execution_result)),
        None => {
            let mut msg = String::from_str("Node returned invalid payload status ");
            append_signed_decimal(&mut msg, resp.status);
            Err(ValidatorNodeRpcClientError::InvalidResponse(msg))
        },
    }
}

/// The error for a finalized result whose bytes do not decode.
pub fn undecodable_result_error() -> (r: ValidatorNodeRpcClientError)
    ensures
        r matches ValidatorNodeRpcClientError::InvalidResponse(m) && m@ == msg_invalid_payload_id(),
{
    invalid_response("Node returned an invalid or empty payload id")
}

/// Whether `bytes` is the compressed encoding of a point of the Ristretto
/// group: 32 bytes that decompress to a valid point.
pub uninterp spec fn is_ristretto_point_encoding(bytes: Seq<u8>) -> bool;

/// Calls `RistrettoPublicKey::from_bytes` of `tari_crypto` and tells whether
/// it succeeded. The contract claims that it succeeds exactly on valid point
/// encodings, which have 32 bytes (the source checks the length first). The
/// key is held by its bytes, so the decoded key itself is not kept.
#[verifier::external_body]
fn is_ristretto_public_key(bytes: &[u8]) -> (r: bool)
    ensures
        r == is_ristretto_point_encoding(bytes@),
        r ==> bytes@.len() == 32,
{
    RistrettoPublicKey::from_bytes(bytes).is_ok()
}

/// A peer of the network: its identity key and its addresses, each with the
/// identity claim that vouches for it.
pub struct DanPeer<K, A, C> {
    pub identity: K,
    pub addresses: Vec<(A, C)>,
}

/// Whether some entry failed to decode.
pub open spec fn has_none<T>(s: Seq<Option<T>>) -> bool {
    exists|i: int| 0 <= i < s.len() && (#[trigger] s[i]) is None
}

pub open spec fn min_len(a: nat, b: nat) -> nat {
    if a <= b { a } else { b }
}

/// Checks that no entry failed to decode.
fn none_missing<T>(s: &Vec<Option<T>>) -> (r: bool)
    ensures
        r == !has_none(s@),
{
    let n = s.len();
    let mut i: usize = 0;
    while i < n
        invariant
            0 <= i <= n,
            n == s@.len(),
            forall|j: int| 0 <= j < i ==> !(#[trigger] s@[j] is None),
        decreases n - i,
    {
        if s[i].is_none() {
            return false;
        }
        i = i + 1;
    }
    true
}

/// Pairs decoded addresses with decoded claims, position by position, as far
/// as the shorter list goes.
fn zip_decoded<A, C>(addresses: Vec<Option<A>>, claims: Vec<Option<C>>) -> (r: Vec<(A, C)>)
    requires
        !has_none(addresses@),
        !has_none(claims@),
    ensures
        r@.len() == min_len(addresses@.len(), claims@.len()),
        forall|i: int|
            0 <= i < r@.len() ==> (#[trigger] r@[i]).0 == addresses@[i]->Some_0 && r@[i].1
                == claims@[i]->Some_0,
{
    let ghost a0 = addresses@;
    let ghost c0 = claims@;
    let mut addresses = addresses;
    let mut claims = claims;
    let n = if addresses.len() <= claims.len() { addresses.len() } else { claims.len() };
    addresses.truncate(n);
    claims.truncate(n);
    let mut out: Vec<(A, C)> = Vec::new();
    let mut k: usize = n;
    while k > 0
        invariant
            0 <= k <= n,
            n == min_len(a0.len(), c0.len()),
            addresses@ == a0.take(k as int),
            claims@ == c0.take(k as int),
            !has_none(a0),
            !has_none(c0),
            out@.len() == n - k,
            forall|i: int|
                0 <= i < out@.len() ==> (#[trigger] out@[i]).0 == a0[k + i]->Some_0 && out@[i].1
                    == c0[k + i]->Some_0,
        decreases k,
    {
        let a = addresses.pop();
        let c = claims.pop();
        proof {
            assert(!(a0[k - 1] is None));
            assert(!(c0[k - 1] is None));
        }
        match (a, c) {
            (Some(Some(a)), Some(Some(c))) => {
                let ghost before = out@;
                out.insert(0, (a, c));
                proof {
                    before.insert_ensures(0, (a, c));
                    assert(addresses@ =~= a0.take(k - 1));
                    assert(claims@ =~= c0.take(k - 1));
                    assert forall|i: int| 0 <= i < out@.len() implies (#[trigger] out@[i]).0
                        == a0[(k - 1) + i]->Some_0 && out@[i].1 == c0[(k - 1) + i]->Some_0 by {
                        if i > 0 {
                            assert(out@[i] == before[i - 1]);
                        }
                    }
                }
            },
            _ => {
                proof {
                    assert(false);
                }
            },
        }
        k = k - 1;
    }
    out
}

/// Assembles a peer from a node's reply. Addresses and claims come decoded
/// (`None` where an entry did not decode); the identity comes as bytes and is
/// checked here to be a public key, which the peer then holds by those bytes.
/// The first failure, in the order addresses, claims, identity, decides the
/// error.
pub fn peer_from_reply<A, C>(
    addresses: Vec<Option<A>>,
    claims: Vec<Option<C>>,
    identity: &[u8],
) -> (r: Result<DanPeer<RistrettoPublicKeyBytes, A, C>, ValidatorNodeRpcClientError>)
    ensures
        has_none(addresses@) ==> is_invalid_response(r, "Invalid address"@),
        !has_none(addresses@) && has_none(claims@) ==> is_invalid_response(r, "Invalid claim"@),
        !has_none(addresses@) && !has_none(claims@) && !is_ristretto_point_encoding(identity@)
            ==> is_invalid_response(r, "Invalid identity"@),
        r is Ok <==> (!has_none(addresses@) && !has_none(claims@) && is_ristretto_point_encoding(
            identity@,
        )),
        r matches Ok(p) ==> peer_matches(p, addresses@, claims@, identity@),
{
    if !none_missing(&addresses) {
        return Err(invalid_response("Invalid address"));
    }
    if !none_missing(&claims) {
        return Err(invalid_response("Invalid claim"));
    }
    if !is_ristretto_public_key(identity) {
        return Err(invalid_response("Invalid identity"));
    }
    let identity = RistrettoPublicKeyBytes(copy_into_array32(identity));
    let pairs = zip_decoded(addresses, claims);
    Ok(DanPeer { identity, addresses: pairs })
}

/// Whether `peer` is what `peer_from_reply` assembles from the decoded
/// `addresses` and `claims` and the `identity` bytes: the key with those
/// bytes, and the pairs of addresses and claims, position by position.
pub open spec fn peer_matches<A, C>(
    peer: DanPeer<RistrettoPublicKeyBytes, A, C>,
    addresses: Seq<Option<A>>,
    claims: Seq<Option<C>>,
    identity: Seq<u8>,
) -> bool {
    &&& peer.identity@ == identity
    &&& peer.addresses@.len() == min_len(addresses.len(), claims.len())
    &&& forall|i: int|
        0 <= i < peer.addresses@.len() ==> (#[trigger] peer.addresses@[i]).0 == addresses[i]->Some_0
            && peer.addresses@[i].1 == claims[i]->Some_0
}

/// One peer as a node's reply lists it: addresses and claims decoded (`None`
/// where an entry did not decode) and the identity key's bytes.
pub struct PeerReply<A, C> {
    pub addresses: Vec<Option<A>>,
    pub claims: Vec<Option<C>>,
    pub identity: Vec<u8>,
}

/// Whether a reply item arrived and describes a valid peer.
pub open spec fn peer_reply_valid<A, C>(r: Result<PeerReply<A, C>, ValidatorNodeRpcClientError>) -> bool {
    r matches Ok(p) && !has_none(p.addresses@) && !has_none(p.claims@) && is_ristretto_point_encoding(
        p.identity@,
    )
}

/// The message of the error for a reply item that arrived but does not
/// describe a valid peer.
pub open spec fn peer_reply_error_message<A, C>(p: PeerReply<A, C>) -> Seq<char> {
    if has_none(p.addresses@) {
        "Invalid address"@
    } else if has_none(p.claims@) {
        "Invalid claim"@
    } else {
        "Invalid identity"@
    }
}

/// The error that the first invalid item of a reply gives.
pub open spec fn peer_reply_error<A, C>(
    r: Result<PeerReply<A, C>, ValidatorNodeRpcClientError>,
    e: ValidatorNodeRpcClientError,
) -> bool {
    match r {
        Err(e2) => e == e2,
        Ok(p) => e matches ValidatorNodeRpcClientError::InvalidResponse(m) && m@ == peer_reply_error_message(p),
    }
}

/// The items of `v` in reverse order.
fn reversed<T>(v: Vec<T>) -> (r: Vec<T>)
    ensures
        r@ == v@.reverse(),
{
    let ghost all = v@;
    let mut v = v;
    let mut out: Vec<T> = Vec::new();
    while v.len() > 0
        invariant
            all == v@ + out@.reverse(),
        decreases v@.len(),
    {
        let ghost before = out@;
        let x = v.pop().unwrap();
        out.push(x);
        assert(out@.reverse() =~= seq![x] + before.reverse());
    }
    assert(all =~= out@.reverse());
    assert(out@ =~= all.reverse());
    out
}

/// Assembles the peers of a node's reply, item by item. The first item that
/// failed to arrive, or that does not describe a valid peer, decides the
/// error; otherwise each item gives one peer.
pub fn peers_from_replies<A, C>(replies: Vec<Result<PeerReply<A, C>, ValidatorNodeRpcClientError>>) -> (r: Result<
    Vec<DanPeer<RistrettoPublicKeyBytes, A, C>>,
    ValidatorNodeRpcClientError,
>)
    ensures
        r is Ok <==> forall|i: int| 0 <= i < replies@.len() ==> peer_reply_valid(#[trigger] replies@[i]),
        r matches Ok(peers) ==> peers@.len() == replies@.len() && forall|i: int|
            0 <= i < peers@.len() ==> peer_matches(
                #[trigger] peers@[i],
                replies@[i]->Ok_0.addresses@,
                replies@[i]->Ok_0.claims@,
                replies@[i]->Ok_0.identity@,
            ),
        r matches Err(e) ==> exists|k: int|
            0 <= k < replies@.len() && (forall|j: int| 0 <= j < k ==> peer_reply_valid(#[trigger] replies@[j]))
                && !peer_reply_valid(replies@[k]) && peer_reply_error(#[trigger] replies@[k], e),
{
    let ghost all = replies@;
    let n = replies.len();
    let mut rest = reversed(replies);
    let mut peers: Vec<DanPeer<RistrettoPublicKeyBytes, A, C>> = Vec::new();
    let mut i: usize = 0;
    while i < n
        invariant
            0 <= i <= n,
            n == all.len(),
            all == replies@,
            rest@.len() == n - i,
            forall|j: int| 0 <= j < n - i ==> #[trigger] rest@[j] == all[n - 1 - j],
            forall|j: int| 0 <= j < i ==> peer_reply_valid(#[trigger] all[j]),
            peers@.len() == i,
            forall|j: int|
                0 <= j < i ==> peer_matches(
                    #[trigger] peers@[j],
                    all[j]->Ok_0.addresses@,
                    all[j]->Ok_0.claims@,
                    all[j]->Ok_0.identity@,
                ),
        decreases n - i,
    {
        let item = rest.pop().unwrap();
        proof {
            assert(item == all[i as int]);
        }
        match item {
            Err(e) => {
                proof {
                    assert(!peer_reply_valid(all[i as int]));
                    assert(peer_reply_error(all[i as int], e));
                }
                return Err(e);
            },
            Ok(p) => {
                let ghost gp = p;
                match peer_from_reply(p.addresses, p.claims, p.identity.as_slice()) {
                    Ok(peer) => {
                        proof {
                            assert(peer_reply_valid(all[i as int]));
                        }
                        peers.push(peer);
                        proof {
                            assert(peer_matches(
                                peers@[i as int],
                                all[i as int]->Ok_0.addresses@,
                                all[i as int]->Ok_0.claims@,
                                all[i as int]->Ok_0.identity@,
                            ));
                        }
                    },
                    Err(e) => {
                        proof {
                            assert(!peer_reply_valid(all[i as int]));
                            assert(peer_reply_error(all[i as int], e));
                        }
                        return Err(e);
                    },
                }
            },
        }
        i = i + 1;
    }
    Ok(peers)
}

/// What the client does to reach a node.
#[derive(Clone, Copy, PartialEq, Eq, Structural)]
pub enum ConnectionAction {
    /// Use the cached connection.
    Reuse,
    /// Dial the node; `cache` tells whether the new connection then replaces
    /// the cached one.
    Dial { cache: bool },
}

/// Decides how to reach a node: a cached connection is reused while it is
/// still connected; otherwise the node is dialed, and the new connection
/// serves this call only: the cached connection is left as it was. `cached`
/// tells whether a connection is cached and, if so, whether it is still
/// connected.
pub fn connection_action(cached: Option<bool>) -> (r: ConnectionAction)
    ensures
        r == (if cached == Some(true) {
            ConnectionAction::Reuse
        } else {
            ConnectionAction::Dial { cache: false }
        }),
{
    match cached {
        Some(true) => ConnectionAction::Reuse,
        _ => ConnectionAction::Dial { cache: false },
    }
}

} // verus!
