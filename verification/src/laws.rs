use vstd::prelude::*;

use crate::errors::ErrorCode;
use crate::escrow::blocked_window;
use crate::escrow::exchange_result;
use crate::escrow::exchange_wired;
use crate::escrow::initialize_result;
use crate::escrow::reset_applied;
use crate::escrow::step_one_ok;
use crate::escrow::step_three_ok;
use crate::escrow::step_two_ok;
use crate::escrow::Exchange;
use crate::escrow::Initialize;
use crate::escrow::Escrow;
use crate::escrow::LOCK_DELAY;
use crate::identity::Identity;

verus! {

/// Every successful `initialize` leaves an initialized record expecting the
/// given amount, with the unlock height `LOCK_DELAY` past the call height,
/// and hands the custody account to the derived authority. Whenever the
/// derived identity differs from the initiator's — the derivation yields an
/// identity with no held key — the custody authority is therefore not the
/// initiator.
pub proof fn lemma_initialize_locks(a: Initialize, amount: u64, height: u64, rent_cost: u64, pda: Identity)
    requires
        height + LOCK_DELAY <= u64::MAX,
        initialize_result(a, amount, height, rent_cost, Some(pda)) is Ok,
        pda != a.initializer,
    ensures
        ({
            let (post, rec) = initialize_result(a, amount, height, rent_cost, Some(pda))->Ok_0;
            &&& rec.is_initialized
            &&& rec.unlock_time == height + LOCK_DELAY
            &&& rec.expected_amount == amount
            &&& post.temp_token_account.authority == pda
            &&& post.temp_token_account.authority != a.initializer
            &&& post.temp_token_account.amount == a.temp_token_account.amount
            &&& post.temp_token_account.address == a.temp_token_account.address
            &&& rec.temp_token_account == a.temp_token_account.address
        }),
{
}

/// Whenever the custody balance differs from the claimed amount, `exchange`
/// reports exactly `AmountMismatch`; by `exchange`'s own contract every such
/// error leaves the state unchanged.
pub proof fn lemma_exchange_amount_mismatch(a: Exchange, claimed: u64, height: u64, pda: Option<Identity>)
    requires
        a.taker_signed,
        exchange_wired(a),
        claimed != a.pdas_temp_token_account.amount,
    ensures
        exchange_result(a, claimed, height, pda) == Err::<Exchange, ErrorCode>(
            ErrorCode::AmountMismatch,
        ),
{
}

/// The height gate: with matching amounts, `exchange` reports
/// `TimeConstraintViolation` exactly for heights strictly inside the window
/// after the unlock height, and otherwise proceeds to the transfer sequence
/// — it either settles or fails in one of the sub-transfers.
pub proof fn lemma_exchange_time_gate(a: Exchange, claimed: u64, height: u64, pda: Identity)
    requires
        a.taker_signed,
        exchange_wired(a),
        claimed == a.pdas_temp_token_account.amount,
    ensures
        blocked_window(a.escrow_account.unlock_time, height) <==> exchange_result(
            a,
            claimed,
            height,
            Some(pda),
        ) == Err::<Exchange, ErrorCode>(ErrorCode::TimeConstraintViolation),
        !blocked_window(a.escrow_account.unlock_time, height) ==> (exchange_result(
            a,
            claimed,
            height,
            Some(pda),
        ) is Ok || exchange_result(a, claimed, height, Some(pda)) == Err::<Exchange, ErrorCode>(
            ErrorCode::TransferFailed,
        )),
{
}

/// Resetting the lock twice at one height is the same as resetting it once,
/// and both leave the unlock height `LOCK_DELAY` past that height; nothing
/// else in the record changes.
pub proof fn lemma_reset_lock_time_idempotent(e: Escrow, height: u64)
    requires
        height + LOCK_DELAY <= u64::MAX,
    ensures
        reset_applied(reset_applied(e, height), height) == reset_applied(e, height),
        reset_applied(e, height).unlock_time == height + LOCK_DELAY,
        reset_applied(e, height) == (Escrow { unlock_time: (height + LOCK_DELAY) as u64, ..e }),
{
}

/// The orchestrator is all-or-nothing: if any of the three sub-steps —
/// including the final custody closure — cannot apply, the whole unit is
/// rejected as `TransferFailed`; by `exchange`'s own contract the rejection
/// leaves every balance and the record unchanged, so the first two transfers
/// are never observable without the third.
pub proof fn lemma_orchestrator_all_or_nothing(a: Exchange, claimed: u64, height: u64, pda: Identity)
    requires
        a.taker_signed,
        exchange_wired(a),
        claimed == a.pdas_temp_token_account.amount,
        !blocked_window(a.escrow_account.unlock_time, height),
        !(step_one_ok(a) && step_two_ok(a, claimed, pda) && step_three_ok(a, pda)),
    ensures
        exchange_result(a, claimed, height, Some(pda)) == Err::<Exchange, ErrorCode>(
            ErrorCode::TransferFailed,
        ),
{
}

/// What a successful `exchange` settles: the counterparty's sending account
/// pays the initiator's receiving account exactly the expected amount, the
/// whole custody balance moves to the counterparty, both storage deposits
/// return to the initiator's main account, and the record is gone.
pub proof fn lemma_exchange_settles(a: Exchange, claimed: u64, height: u64, pda: Option<Identity>)
    requires
        exchange_result(a, claimed, height, pda) is Ok,
    ensures
        ({
            let post = exchange_result(a, claimed, height, pda)->Ok_0;
            &&& post.takers_sending_token_account.amount == a.takers_sending_token_account.amount
                - a.escrow_account.expected_amount
            &&& post.initializers_token_to_receive_account.amount
                == a.initializers_token_to_receive_account.amount + a.escrow_account.expected_amount
            &&& post.takers_token_to_receive_account.amount
                == a.takers_token_to_receive_account.amount + claimed
            &&& post.pdas_temp_token_account.amount == 0
            &&& post.initializers_main_lamports == a.initializers_main_lamports
                + a.custody_lamports + a.escrow_lamports
            &&& post.custody_lamports == 0
            &&& post.escrow_lamports == 0
            &&& !post.record_exists
            &&& post.escrow_account == a.escrow_account
        }),
{
}

} // verus!
