//! What holds of the escrow over all of its calls.

use crate::contract::{
    accepted,
    handle_outcome,
    init_outcome,
    opens,
    payout,
    refund_outcome,
    rejected,
    release_outcome,
    requested_state,
};
use crate::error::ContractError;
use crate::expiry::expired;
use crate::hash::{
    first_non_hex,
    hex_32,
    hex_digit_value,
    is_hex_char,
    lemma_ascii_bytes,
    lemma_first_non_hex,
};
use crate::msg::{HandleMsgView, InitMsgView};
use crate::state::StateView;
use crate::types::{ParamsView, ResponseView};
use vstd::prelude::*;
use vstd::utf8::{encode_utf8, is_ascii_chars, is_ascii_chars_encode_utf8};

verus! {

/// An escrow with no deadline set is never expired.
pub proof fn law_no_deadline_never_expires(current_height: int, current_time: int)
    ensures
        !expired(0, 0, current_height, current_time),
{
}

/// An expired escrow stays expired: no later block revives it.
pub proof fn law_expiry_is_final(
    expiry_height: int,
    expiry_time: int,
    height: int,
    time: int,
    later_height: int,
    later_time: int,
)
    requires
        expired(expiry_height, expiry_time, height, time),
        height <= later_height,
        time <= later_time,
    ensures
        expired(expiry_height, expiry_time, later_height, later_time),
{
}

/// A text is a 32-byte value in hex exactly when it is 64 characters, each
/// one of `0-9`, `a-f`, `A-F`. It then stands for 32 bytes.
pub proof fn law_commitment_is_64_hex_digits(text: Seq<char>)
    ensures
        hex_32(text) is Ok <==> text.len() == 64 && (forall|i: int|
            0 <= i < text.len() ==> is_hex_char(#[trigger] text[i])),
        hex_32(text) is Ok ==> hex_32(text)->Ok_0.len() == 32,
{
    let bytes = encode_utf8(text);
    lemma_first_non_hex(bytes, 0);
    if hex_32(text) is Ok {
        assert forall|i: int| 0 <= i < bytes.len() implies #[trigger] bytes[i] < 0x80 by {
            assert(hex_digit_value(bytes[i]) is Some);
        }
        lemma_ascii_bytes(text);
        assert forall|i: int| 0 <= i < text.len() implies is_hex_char(#[trigger] text[i]) by {
            assert(hex_digit_value(bytes[i]) is Some);
            assert(text[i] == bytes[i] as char);
        }
    }
    if text.len() == 64 && forall|i: int| 0 <= i < text.len() ==> is_hex_char(#[trigger] text[i]) {
        assert(is_ascii_chars(text)) by {
            assert forall|i: int| 0 <= i < text.len() implies '\0' <= #[trigger] text[i]
                <= '\u{7f}' by {
                assert(is_hex_char(text[i]));
            }
        }
        is_ascii_chars_encode_utf8(text);
        let bad = first_non_hex(bytes, 0);
        if bad < bytes.len() {
            assert(is_hex_char(text[bad]));
            assert(text[bad] as u8 == bytes[bad]);
        }
    }
}

/// Creating an escrow with both deadlines unset is never rejected as
/// expired, in whatever block; with a commitment of 32 bytes in hex it is
/// not rejected at all.
pub proof fn law_create_without_deadline(params: ParamsView, msg: InitMsgView)
    requires
        msg.end_height == 0,
        msg.end_time == 0,
    ensures
        init_outcome(params, msg) != rejected::<StateView>(ContractError::AlreadyExpiredAtCreation),
        hex_32(msg.hash) is Ok ==> init_outcome(params, msg) == accepted(
            requested_state(params, msg),
        ),
{
}

/// An escrow that was created holds the terms asked for, is funded by the
/// signer of the creating call, has a commitment of 32 bytes and is not
/// expired in the block of its creation.
pub proof fn law_created_escrow_is_live(params: ParamsView, msg: InitMsgView, state: StateView)
    requires
        init_outcome(params, msg) == accepted(state),
    ensures
        state == requested_state(params, msg),
        state.source == params.message.signer,
        state.well_formed(),
        !state.is_expired(params.block),
{
}

/// A release succeeds exactly when the escrow is not expired and the
/// preimage opens the commitment. It then pays the recipient all that the
/// contract holds. Every other call fails, and with the error of the first
/// check it fails: `SwapExpired` at or after a deadline, else a
/// `ValidationError` for a commitment or preimage that is not 32 bytes of
/// hex, else `InvalidPreimage`.
pub proof fn law_release(params: ParamsView, state: StateView, preimage: Seq<char>)
    ensures
        release_outcome(params, state, preimage) is Ok <==> !state.is_expired(params.block)
            && opens(state.hash, preimage),
        release_outcome(params, state, preimage) is Ok ==> release_outcome(params, state, preimage)
            == accepted(payout(params.contract, state.recipient, "swap successful"@)),
        release_outcome(params, state, preimage) == rejected::<ResponseView>(
            ContractError::SwapExpired,
        ) <==> state.is_expired(params.block),
        (release_outcome(params, state, preimage) matches Err(ContractError::ValidationError(_)))
            <==> !state.is_expired(params.block) && (hex_32(state.hash) is Err || hex_32(
            preimage,
        ) is Err),
        release_outcome(params, state, preimage) == rejected::<ResponseView>(
            ContractError::InvalidPreimage,
        ) <==> !state.is_expired(params.block) && hex_32(state.hash) is Ok && hex_32(
            preimage,
        ) is Ok && !opens(state.hash, preimage),
{
}

/// A refund succeeds exactly when the escrow is expired, and then pays the
/// funder all that the contract holds; before that it fails with
/// `SwapNotYetExpired`.
pub proof fn law_refund(params: ParamsView, state: StateView)
    ensures
        refund_outcome(params, state) is Ok <==> state.is_expired(params.block),
        state.is_expired(params.block) ==> refund_outcome(params, state) == accepted(
            payout(params.contract, state.source, "swap expired"@),
        ),
        !state.is_expired(params.block) ==> refund_outcome(params, state) == rejected::<
            ResponseView,
        >(ContractError::SwapNotYetExpired),
{
}

/// Who calls makes no difference to a refund, nor to a release: the outcome
/// is the same for every signer and whatever funds come with the call.
pub proof fn law_caller_is_irrelevant(
    params: ParamsView,
    other: ParamsView,
    state: StateView,
    preimage: Seq<char>,
)
    requires
        other.block == params.block,
        other.contract == params.contract,
    ensures
        refund_outcome(other, state) == refund_outcome(params, state),
        release_outcome(other, state, preimage) == release_outcome(params, state, preimage),
{
}

/// In one block a release and a refund never both succeed.
pub proof fn law_release_excludes_refund(params: ParamsView, state: StateView, preimage: Seq<char>)
    ensures
        !(release_outcome(params, state, preimage) is Ok && refund_outcome(params, state) is Ok),
{
}

/// The message that asks for a release against `preimage`.
pub open spec fn release_of(preimage: Seq<char>) -> HandleMsgView {
    HandleMsgView::Release { preimage }
}

/// A release that succeeded succeeds again for the same preimage in every
/// later call made while the escrow is not expired, whoever makes it, and
/// moves whatever the contract holds by then: nothing, once the first
/// release has been paid out.
pub proof fn law_release_is_repeatable(
    state: StateView,
    first: ParamsView,
    second: ParamsView,
    preimage: Seq<char>,
)
    requires
        handle_outcome(Some(state), first, release_of(preimage)) is Ok,
        !state.is_expired(second.block),
    ensures
        handle_outcome(Some(state), second, release_of(preimage)) == accepted(
            payout(second.contract, state.recipient, "swap successful"@),
        ),
        second.contract.balance.len() == 0 ==> payout(
            second.contract,
            state.recipient,
            "swap successful"@,
        ).messages[0]->amount.len() == 0,
{
}

/// A call on a contract that has no escrow is rejected as uninitialized,
/// whatever it asks for.
pub proof fn law_nothing_without_an_escrow(params: ParamsView, msg: HandleMsgView)
    ensures
        handle_outcome(None, params, msg) == rejected::<ResponseView>(ContractError::Uninitialized),
{
}

} // verus!
