//! The escrow's three calls: create, release and refund.

use crate::error::ContractError;
use crate::hash::{digest_matches, hex_32, parse_hex_32, sha256, sha256_digest};
use crate::msg::{HandleMsg, HandleMsgView, InitMsg, InitMsgView};
use crate::state::{EscrowStore, State, StateView};
use crate::types::{
    coins_view,
    outcome_view,
    Coin,
    ContractInfoView,
    CosmosMsg,
    CosmosMsgView,
    Params,
    ParamsView,
    Response,
    ResponseView,
};
use vstd::prelude::*;

verus! {

/// The response that moves everything `contract` holds to `to_address`, and
/// logs `log`.
pub open spec fn payout(
    contract: ContractInfoView,
    to_address: Seq<char>,
    log: Seq<char>,
) -> ResponseView {
    ResponseView {
        messages: seq![
            CosmosMsgView::Send {
                from_address: contract.address,
                to_address: to_address,
                amount: contract.balance,
            },
        ],
        log: Some(log),
        data: None,
    }
}

/// The escrow that `msg` asks for when `params.message.signer` sends it.
pub open spec fn requested_state(params: ParamsView, msg: InitMsgView) -> StateView {
    StateView {
        hash: msg.hash,
        recipient: msg.recipient,
        source: params.message.signer,
        end_height: msg.end_height,
        end_time: msg.end_time,
    }
}

/// What creating an escrow gives: the record to keep, or the rejection.
///
/// The commitment is checked first; an escrow that would be expired from
/// the start is rejected.
pub open spec fn init_outcome(params: ParamsView, msg: InitMsgView) -> Result<
    StateView,
    ContractError,
> {
    match hex_32(msg.hash) {
        Err(e) => Err(e),
        Ok(_) => if requested_state(params, msg).is_expired(params.block) {
            Err(ContractError::AlreadyExpiredAtCreation)
        } else {
            Ok(requested_state(params, msg))
        },
    }
}

/// Whether `preimage` opens the commitment `hash`: both are 32 bytes in hex,
/// and the SHA-256 digest of the first is the second.
pub open spec fn opens(hash: Seq<char>, preimage: Seq<char>) -> bool {
    &&& hex_32(hash) is Ok
    &&& hex_32(preimage) is Ok
    &&& sha256(hex_32(preimage)->Ok_0) == hex_32(hash)->Ok_0
}

/// The outcome of a call that is rejected with `e`.
pub open spec fn rejected<T>(e: ContractError) -> Result<T, ContractError> {
    Err(e)
}

/// The outcome of a call that succeeds with `value`.
pub open spec fn accepted<T>(value: T) -> Result<T, ContractError> {
    Ok(value)
}

/// What a release gives once the claimed preimage has been hashed to
/// `digest` and the commitment read as `expected`.
pub open spec fn release_on_digest_outcome(
    params: ParamsView,
    state: StateView,
    expected: Seq<u8>,
    digest: Seq<u8>,
) -> Result<ResponseView, ContractError> {
    if digest == expected {
        Ok(payout(params.contract, state.recipient, "swap successful"@))
    } else {
        Err(ContractError::InvalidPreimage)
    }
}

/// What a release gives.
///
/// Expiry is checked first, then the stored commitment, then the claimed
/// preimage, then its digest.
pub open spec fn release_outcome(
    params: ParamsView,
    state: StateView,
    preimage: Seq<char>,
) -> Result<ResponseView, ContractError> {
    if state.is_expired(params.block) {
        Err(ContractError::SwapExpired)
    } else {
        match hex_32(state.hash) {
            Err(e) => Err(e),
            Ok(expected) => match hex_32(preimage) {
                Err(e) => Err(e),
                Ok(secret) => release_on_digest_outcome(params, state, expected, sha256(secret)),
            },
        }
    }
}

/// What a refund gives.
pub open spec fn refund_outcome(params: ParamsView, state: StateView) -> Result<
    ResponseView,
    ContractError,
> {
    if state.is_expired(params.block) {
        Ok(payout(params.contract, state.source, "swap expired"@))
    } else {
        Err(ContractError::SwapNotYetExpired)
    }
}

/// What a call on the escrow in `record` gives.
pub open spec fn handle_outcome(
    record: Option<StateView>,
    params: ParamsView,
    msg: HandleMsgView,
) -> Result<ResponseView, ContractError> {
    match record {
        None => Err(ContractError::Uninitialized),
        Some(state) => match msg {
            HandleMsgView::Release { preimage } => release_outcome(params, state, preimage),
            HandleMsgView::Refund => refund_outcome(params, state),
        },
    }
}

/// The instruction that moves `amount` from `from_address` to `to_address`.
pub fn send_tokens(from_address: String, to_address: String, amount: Vec<Coin>) -> (msg: CosmosMsg)
    ensures
        msg@ == (CosmosMsgView::Send {
            from_address: from_address@,
            to_address: to_address@,
            amount: coins_view(amount@),
        }),
{
    CosmosMsg::Send { from_address, to_address, amount }
}

/// Creates the escrow that `msg` describes, funded by the signer of the
/// call, and keeps it in `store`.
///
/// Nothing is kept where the call is rejected.
pub fn init(store: &mut EscrowStore, params: Params, msg: InitMsg) -> (res: Result<
    Response,
    ContractError,
>)
    ensures
        (match init_outcome(params@, msg@) {
            Ok(state) => outcome_view(res) == accepted(ResponseView::empty()) && final(store)@
                == Some(state),
            Err(e) => outcome_view(res) == rejected::<ResponseView>(e) && *final(store) == *old(
                store,
            ),
        }),
{
    match parse_hex_32(msg.hash.as_str()) {
        Err(e) => {
            return Err(e);
        },
        Ok(_) => {},
    }
    let state = State {
        hash: msg.hash,
        recipient: msg.recipient,
        source: params.message.signer.clone(),
        end_height: msg.end_height,
        end_time: msg.end_time,
    };
    if state.is_expired(&params) {
        Err(ContractError::AlreadyExpiredAtCreation)
    } else {
        store.set(state);
        Ok(Response::default())
    }
}

/// Runs `msg` on the escrow in `store`, which it leaves as it was.
pub fn handle(store: &mut EscrowStore, params: Params, msg: HandleMsg) -> (res: Result<
    Response,
    ContractError,
>)
    ensures
        outcome_view(res) == handle_outcome(old(store)@, params@, msg@),
        *final(store) == *old(store),
{
    let state = match store.get() {
        Some(state) => state,
        None => {
            return Err(ContractError::Uninitialized);
        },
    };
    match msg {
        HandleMsg::Release { preimage } => try_release(params, state, preimage),
        HandleMsg::Refund {  } => try_refund(params, state),
    }
}

/// Pays the recipient everything the contract holds, if the escrow is not
/// expired and `preimage` hashes to the commitment. Anyone may call.
pub fn try_release(params: Params, state: State, preimage: String) -> (res: Result<
    Response,
    ContractError,
>)
    ensures
        outcome_view(res) == release_outcome(params@, state@, preimage@),
{
    if state.is_expired(&params) {
        return Err(ContractError::SwapExpired);
    }
    let expected = match parse_hex_32(state.hash.as_str()) {
        Ok(bytes) => bytes,
        Err(e) => {
            return Err(e);
        },
    };
    let secret = match parse_hex_32(preimage.as_str()) {
        Ok(bytes) => bytes,
        Err(e) => {
            return Err(e);
        },
    };
    let digest = sha256_digest(secret.as_slice());
    release_on_digest(params, state, expected.as_slice(), digest.as_slice())
}

/// Finishes a release once the claimed preimage has been hashed: pays the
/// recipient if `digest` is `expected`, and rejects the preimage if not.
pub fn release_on_digest(
    params: Params,
    state: State,
    expected: &[u8],
    digest: &[u8],
) -> (res: Result<Response, ContractError>)
    ensures
        outcome_view(res) == release_on_digest_outcome(params@, state@, expected@, digest@),
{
    if !digest_matches(digest, expected) {
        return Err(ContractError::InvalidPreimage);
    }
    let res = Response {
        messages: vec![
            send_tokens(params.contract.address, state.recipient, params.contract.balance),
        ],
        log: Some("swap successful".to_string()),
        data: None,
    };
    assert(res@.messages =~= payout(
        params@.contract,
        state@.recipient,
        "swap successful"@,
    ).messages);
    Ok(res)
}

/// Pays the funder back everything the contract holds, if the escrow is
/// expired. Anyone may call.
pub fn try_refund(params: Params, state: State) -> (res: Result<Response, ContractError>)
    ensures
        outcome_view(res) == refund_outcome(params@, state@),
{
    if !state.is_expired(&params) {
        return Err(ContractError::SwapNotYetExpired);
    }
    let res = Response {
        messages: vec![
            send_tokens(params.contract.address, state.source, params.contract.balance),
        ],
        log: Some("swap expired".to_string()),
        data: None,
    };
    assert(res@.messages =~= payout(params@.contract, state@.source, "swap expired"@).messages);
    Ok(res)
}

} // verus!
