use vstd::prelude::*;

use crate::authority::spec_derived_identity;
use crate::authority::derive_escrow_authority;
use crate::errors::ErrorCode;
use crate::identity::Identity;

verus! {

/// Heights added to the current height to obtain the unlock height.
pub const LOCK_DELAY: u64 = 100;

/// Length of the window strictly after the unlock height during which
/// `exchange` is rejected.
pub const BLOCKED_WINDOW: u64 = 1000;

/// A token account of the ledger, as the escrow core reads it: its address,
/// the identity allowed to move its balance, and the balance itself in raw
/// ledger units.
#[derive(Clone, Copy, PartialEq, Eq, Structural, Debug)]
pub struct TokenAccount {
    pub address: Identity,
    pub authority: Identity,
    pub amount: u64,
}

/// The persisted record describing one in-flight swap.
#[derive(Clone, Copy, PartialEq, Eq, Structural, Debug)]
pub struct Escrow {
    pub is_initialized: bool,
    pub initializer: Identity,
    pub temp_token_account: Identity,
    pub initializer_token_to_receive_account: Identity,
    pub expected_amount: u64,
    pub unlock_time: u64,
}

/// Everything `initialize` reads and writes, as plain values: the initiator,
/// whether the call carries the initiator's signature, the initiator's
/// balance that funds the record account, the custody account to be locked,
/// where the initiator wants the counterparty's payment delivered, and the
/// address and occupancy of the record account to allocate.
#[derive(Clone, Copy, PartialEq, Eq, Structural, Debug)]
pub struct Initialize {
    pub initializer: Identity,
    pub initializer_signed: bool,
    pub initializer_lamports: u64,
    pub temp_token_account: TokenAccount,
    pub token_to_receive_account: Identity,
    pub escrow_account_address: Identity,
    pub escrow_account_in_use: bool,
}

/// Everything `exchange` reads and writes, as plain values. Lamport balances
/// model the storage deposits reclaimed when the custody account and the
/// record account are closed.
#[derive(Clone, Copy, PartialEq, Eq, Structural, Debug)]
pub struct Exchange {
    pub taker: Identity,
    pub taker_signed: bool,
    pub takers_sending_token_account: TokenAccount,
    pub takers_token_to_receive_account: TokenAccount,
    pub pdas_temp_token_account: TokenAccount,
    pub initializers_main_account: Identity,
    pub initializers_main_lamports: u64,
    pub initializers_token_to_receive_account: TokenAccount,
    pub escrow_account: Escrow,
    pub escrow_lamports: u64,
    pub custody_lamports: u64,
    pub record_exists: bool,
}

/// The unlock height written by `initialize` and `reset_lock_time`.
pub open spec fn spec_unlock_time(height: u64) -> int {
    height + LOCK_DELAY
}

/// The disallowed window: strictly after the unlock height and strictly
/// before the window closes, `exchange` is rejected. Before the unlock
/// height, or once the window has passed, it is permitted.
pub open spec fn blocked_window(unlock_time: u64, height: u64) -> bool {
    height > unlock_time && height < unlock_time + BLOCKED_WINDOW
}

/// What `initialize` leaves behind on success, given the derived authority.
pub open spec fn initialize_applied(a: Initialize, amount: u64, height: u64, rent_cost: u64, pda: Identity) -> (Initialize, Escrow) {
    (
        Initialize {
            initializer_lamports: (a.initializer_lamports - rent_cost) as u64,
            temp_token_account: TokenAccount { authority: pda, ..a.temp_token_account },
            escrow_account_in_use: true,
            ..a
        },
        Escrow {
            is_initialized: true,
            initializer: a.initializer,
            temp_token_account: a.temp_token_account.address,
            initializer_token_to_receive_account: a.token_to_receive_account,
            expected_amount: amount,
            unlock_time: (height + LOCK_DELAY) as u64,
        },
    )
}

/// The full outcome of `initialize`: either the new account state paired with
/// the freshly written record, or the exact error, checked in this order.
pub open spec fn initialize_result(a: Initialize, amount: u64, height: u64, rent_cost: u64, pda: Option<Identity>) -> Result<(Initialize, Escrow), ErrorCode> {
    if !a.initializer_signed {
        Err(ErrorCode::UnauthorizedSigner)
    } else if a.escrow_account_in_use {
        Err(ErrorCode::AccountAlreadyInUse)
    } else if a.initializer_lamports < rent_cost {
        Err(ErrorCode::InsufficientFunds)
    } else if pda is None {
        Err(ErrorCode::DerivationExhausted)
    } else if a.temp_token_account.authority != a.initializer {
        Err(ErrorCode::UnauthorizedSigner)
    } else {
        Ok(initialize_applied(a, amount, height, rent_cost, pda->Some_0))
    }
}

/// Creates the escrow record and locks the custody account: funds a record
/// account of the initiator's, writes the record with `unlock_time` set
/// `LOCK_DELAY` heights ahead, and hands control of the custody account to
/// the authority derived from the fixed seed and `program_id`. On any error
/// nothing changes.
pub fn initialize(accounts: &mut Initialize, amount: u64, height: u64, rent_cost: u64, program_id: &Identity) -> (r: Result<Escrow, ErrorCode>)
    requires
        height + LOCK_DELAY <= u64::MAX,
    ensures
        match initialize_result(*old(accounts), amount, height, rent_cost, spec_derived_identity(*program_id)) {
            Ok(post) => r == Ok::<Escrow, ErrorCode>(post.1) && *final(accounts) == post.0,
            Err(e) => r == Err::<Escrow, ErrorCode>(e) && *final(accounts) == *old(accounts),
        },
{
    if !accounts.initializer_signed {
        return Err(ErrorCode::UnauthorizedSigner);
    }
    if accounts.escrow_account_in_use {
        return Err(ErrorCode::AccountAlreadyInUse);
    }
    if accounts.initializer_lamports < rent_cost {
        return Err(ErrorCode::InsufficientFunds);
    }
    let pda: Identity = match derive_escrow_authority(program_id) {
        Ok(p) => p.0,
        Err(e) => {
            return Err(e);
        },
    };
    if accounts.temp_token_account.authority != accounts.initializer {
        return Err(ErrorCode::UnauthorizedSigner);
    }
    let record = Escrow {
        is_initialized: true,
        initializer: accounts.initializer,
        temp_token_account: accounts.temp_token_account.address,
        initializer_token_to_receive_account: accounts.token_to_receive_account,
        expected_amount: amount,
        unlock_time: height + LOCK_DELAY,
    };
    accounts.initializer_lamports = accounts.initializer_lamports - rent_cost;
    accounts.temp_token_account.authority = pda;
    accounts.escrow_account_in_use = true;
    Ok(record)
}

/// The supplied exchange accounts agree with the record's wiring: the custody
/// account, the initiator's main account and the initiator's receiving
/// account are the ones the record names.
pub open spec fn exchange_wired(a: Exchange) -> bool {
    &&& a.escrow_account.temp_token_account == a.pdas_temp_token_account.address
    &&& a.escrow_account.initializer == a.initializers_main_account
    &&& a.escrow_account.initializer_token_to_receive_account == a.initializers_token_to_receive_account.address
}

/// The first sub-transfer can apply: the counterparty controls the sending
/// account, covers the amount the initiator expects, and the receiving
/// balance does not overflow.
pub open spec fn step_one_ok(a: Exchange) -> bool {
    &&& a.takers_sending_token_account.authority == a.taker
    &&& a.takers_sending_token_account.amount >= a.escrow_account.expected_amount
    &&& a.initializers_token_to_receive_account.amount + a.escrow_account.expected_amount <= u64::MAX
}

/// The second sub-transfer can apply: the custody account is controlled by
/// the derived authority and the counterparty's receiving balance does not
/// overflow.
pub open spec fn step_two_ok(a: Exchange, claimed: u64, pda: Identity) -> bool {
    &&& a.pdas_temp_token_account.authority == pda
    &&& a.takers_token_to_receive_account.amount + claimed <= u64::MAX
}

/// The custody closure can apply: the derived authority controls the custody
/// account, and returning both storage deposits to the initiator's main
/// account does not overflow it.
pub open spec fn step_three_ok(a: Exchange, pda: Identity) -> bool {
    &&& a.pdas_temp_token_account.authority == pda
    &&& a.initializers_main_lamports + a.custody_lamports + a.escrow_lamports <= u64::MAX
}

/// What `exchange` leaves behind on success: the counterparty paid the
/// initiator's expected amount, the custody balance moved to the
/// counterparty, both storage deposits returned to the initiator, and the
/// record is gone.
pub open spec fn exchange_applied(a: Exchange, claimed: u64) -> Exchange {
    Exchange {
        takers_sending_token_account: TokenAccount {
            amount: (a.takers_sending_token_account.amount - a.escrow_account.expected_amount) as u64,
            ..a.takers_sending_token_account
        },
        initializers_token_to_receive_account: TokenAccount {
            amount: (a.initializers_token_to_receive_account.amount + a.escrow_account.expected_amount) as u64,
            ..a.initializers_token_to_receive_account
        },
        takers_token_to_receive_account: TokenAccount {
            amount: (a.takers_token_to_receive_account.amount + claimed) as u64,
            ..a.takers_token_to_receive_account
        },
        pdas_temp_token_account: TokenAccount { amount: 0, ..a.pdas_temp_token_account },
        initializers_main_lamports: (a.initializers_main_lamports + a.custody_lamports + a.escrow_lamports) as u64,
        custody_lamports: 0,
        escrow_lamports: 0,
        record_exists: false,
        ..a
    }
}

/// The full outcome of `exchange`, checked in this order: the counterparty's
/// signature, the account wiring, the claimed amount against the custody
/// balance, the height window, the authority derivation, and then the three
/// sub-transfers as one unit.
pub open spec fn exchange_result(a: Exchange, claimed: u64, height: u64, pda: Option<Identity>) -> Result<Exchange, ErrorCode> {
    if !a.taker_signed {
        Err(ErrorCode::UnauthorizedSigner)
    } else if !exchange_wired(a) {
        Err(ErrorCode::MissingParticipant)
    } else if claimed != a.pdas_temp_token_account.amount {
        Err(ErrorCode::AmountMismatch)
    } else if blocked_window(a.escrow_account.unlock_time, height) {
        Err(ErrorCode::TimeConstraintViolation)
    } else if pda is None {
        Err(ErrorCode::DerivationExhausted)
    } else if !(step_one_ok(a) && step_two_ok(a, claimed, pda->Some_0) && step_three_ok(a, pda->Some_0)) {
        Err(ErrorCode::TransferFailed)
    } else {
        Ok(exchange_applied(a, claimed))
    }
}

/// Consumes the escrow: pays the initiator from the counterparty, pays the
/// counterparty the custody balance, and closes the custody and record
/// accounts back to the initiator, all or nothing. On any error nothing
/// changes.
pub fn exchange(accounts: &mut Exchange, amount_expected_by_taker: u64, current_height: u64, program_id: &Identity) -> (r: Result<(), ErrorCode>)
    requires
        old(accounts).record_exists,
        old(accounts).escrow_account.is_initialized,
    ensures
        match exchange_result(*old(accounts), amount_expected_by_taker, current_height, spec_derived_identity(*program_id)) {
            Ok(post) => r == Ok::<(), ErrorCode>(()) && *final(accounts) == post,
            Err(e) => r == Err::<(), ErrorCode>(e) && *final(accounts) == *old(accounts),
        },
{
    if !accounts.taker_signed {
        return Err(ErrorCode::UnauthorizedSigner);
    }
    let wired: bool = accounts.escrow_account.temp_token_account == accounts.pdas_temp_token_account.address
        && accounts.escrow_account.initializer == accounts.initializers_main_account
        && accounts.escrow_account.initializer_token_to_receive_account
            == accounts.initializers_token_to_receive_account.address;
    if !wired {
        return Err(ErrorCode::MissingParticipant);
    }
    if amount_expected_by_taker != accounts.pdas_temp_token_account.amount {
        return Err(ErrorCode::AmountMismatch);
    }
    let unlock: u64 = accounts.escrow_account.unlock_time;
    if current_height > unlock && current_height - unlock < BLOCKED_WINDOW {
        return Err(ErrorCode::TimeConstraintViolation);
    }
    let pda: Identity = match derive_escrow_authority(program_id) {
        Ok(p) => p.0,
        Err(e) => {
            return Err(e);
        },
    };
    let expected: u64 = accounts.escrow_account.expected_amount;
    let one_ok: bool = accounts.takers_sending_token_account.authority == accounts.taker
        && accounts.takers_sending_token_account.amount >= expected
        && accounts.initializers_token_to_receive_account.amount <= u64::MAX - expected;
    let two_ok: bool = accounts.pdas_temp_token_account.authority == pda
        && accounts.takers_token_to_receive_account.amount <= u64::MAX - amount_expected_by_taker;
    let three_ok: bool = accounts.pdas_temp_token_account.authority == pda
        && accounts.initializers_main_lamports <= u64::MAX - accounts.custody_lamports
        && accounts.initializers_main_lamports + accounts.custody_lamports
            <= u64::MAX - accounts.escrow_lamports;
    if !(one_ok && two_ok && three_ok) {
        return Err(ErrorCode::TransferFailed);
    }
    accounts.takers_sending_token_account.amount =
        accounts.takers_sending_token_account.amount - expected;
    accounts.initializers_token_to_receive_account.amount =
        accounts.initializers_token_to_receive_account.amount + expected;
    accounts.takers_token_to_receive_account.amount =
        accounts.takers_token_to_receive_account.amount + amount_expected_by_taker;
    accounts.pdas_temp_token_account.amount = 0;
    accounts.initializers_main_lamports = accounts.initializers_main_lamports
        + accounts.custody_lamports + accounts.escrow_lamports;
    accounts.custody_lamports = 0;
    accounts.escrow_lamports = 0;
    accounts.record_exists = false;
    Ok(())
}

/// What `reset_lock_time` leaves behind: only `unlock_time` changes.
pub open spec fn reset_applied(e: Escrow, height: u64) -> Escrow {
    Escrow { unlock_time: (height + LOCK_DELAY) as u64, ..e }
}

/// Moves the unlock height `LOCK_DELAY` heights past the current height,
/// unconditionally; no other field of the record changes.
pub fn reset_lock_time(escrow_account: &mut Escrow, height: u64) -> (r: Result<(), ErrorCode>)
    requires
        height + LOCK_DELAY <= u64::MAX,
    ensures
        r == Ok::<(), ErrorCode>(()),
        *final(escrow_account) == reset_applied(*old(escrow_account), height),
{
    escrow_account.unlock_time = height + LOCK_DELAY;
    Ok(())
}

} // verus!
