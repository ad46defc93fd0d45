use vstd::prelude::*;

use crate::codec::spec_decode_power_status;
use crate::codec::spec_decode_set_power;
use crate::codec::spec_power_status_bytes;
use crate::codec::decode_power_status;
use crate::codec::decode_set_power_status;
use crate::codec::encode_power_status;
use crate::errors::ErrorCode;
use crate::identity::Identity;

verus! {

/// The toggle program's stored state: a single boolean flag.
#[derive(Clone, Copy, PartialEq, Eq, Structural, Debug)]
pub struct PowerStatus {
    pub is_on: bool,
}

/// The toggle program's second instruction payload: the name of whoever
/// pulls the switch.
#[derive(Debug)]
pub struct SetPowerStatus {
    pub name: String,
}

/// The two instruction shapes the toggle program recognizes, told apart by
/// shape: a one-byte payload creates the account, a length-prefixed payload
/// flips it.
#[derive(Debug)]
pub enum PowerInstruction {
    Initialize(PowerStatus),
    SwitchPower(SetPowerStatus),
}

/// What the allocator must be told to create the toggle account: who funds
/// it, its address, its balance and its byte length.
#[derive(Clone, Copy, PartialEq, Eq, Structural, Debug)]
pub struct AccountCreation {
    pub funder: Identity,
    pub new_account: Identity,
    pub lamports: u64,
    pub space: u64,
}

/// No instruction bytes decode as both shapes: the one-byte shape and the
/// length-prefixed shape are disjoint, so dispatch by shape is unambiguous.
pub proof fn lemma_power_shapes_disjoint(bytes: Seq<u8>)
    ensures
        !(spec_decode_power_status(bytes) is Some && spec_decode_set_power(bytes) is Some),
{
}

/// Decodes one instruction for the toggle program, telling the two shapes
/// apart by inspecting the payload length first; `MalformedRecord` exactly
/// when the bytes fit neither shape.
pub fn process_instruction(instruction_data: &[u8]) -> (r: Result<PowerInstruction, ErrorCode>)
    ensures
        match spec_decode_power_status(instruction_data@) {
            Some(p) => r matches Ok(PowerInstruction::Initialize(q)) && q == p,
            None => match spec_decode_set_power(instruction_data@) {
                Some(name) => r matches Ok(PowerInstruction::SwitchPower(s)) && s.name@ == name,
                None => r == Err::<PowerInstruction, ErrorCode>(ErrorCode::MalformedRecord),
            },
        },
{
    if instruction_data.len() == 1 {
        match decode_power_status(instruction_data) {
            Ok(p) => Ok(PowerInstruction::Initialize(p)),
            Err(e) => Err(e),
        }
    } else {
        match decode_set_power_status(instruction_data) {
            Ok(s) => Ok(PowerInstruction::SwitchPower(s)),
            Err(e) => Err(e),
        }
    }
}

/// Plans the creation of the toggle account from the fixed positional
/// participant list (the account to create, its funder, the allocator):
/// `MissingParticipant` exactly when fewer than three identities were
/// supplied. The account is sized to the exact byte length of the stored
/// state, funded with the cost the caller computed, and seeded with the
/// state's wire form.
pub fn initialize(accounts: &Vec<Identity>, power_status: &PowerStatus, lamports_required: u64) -> (r: Result<
    (AccountCreation, Vec<u8>),
    ErrorCode,
>)
    ensures
        r is Ok <==> accounts@.len() >= 3,
        r is Err ==> r == Err::<(AccountCreation, Vec<u8>), ErrorCode>(
            ErrorCode::MissingParticipant,
        ),
        r is Ok ==> {
            &&& r->Ok_0.0.new_account == accounts@[0]
            &&& r->Ok_0.0.funder == accounts@[1]
            &&& r->Ok_0.0.lamports == lamports_required
            &&& r->Ok_0.0.space == r->Ok_0.1@.len()
            &&& r->Ok_0.1@ == spec_power_status_bytes(*power_status)
        },
{
    if accounts.len() < 3 {
        return Err(ErrorCode::MissingParticipant);
    }
    let data = encode_power_status(power_status);
    let plan = AccountCreation {
        funder: accounts[1],
        new_account: accounts[0],
        lamports: lamports_required,
        space: 1u64,
    };
    Ok((plan, data))
}

/// Flips the stored flag: decodes the account's bytes, negates the flag and
/// returns the new wire form to store back. `MalformedRecord` exactly when
/// the stored bytes are not a valid state.
pub fn switch_power(account_data: &[u8]) -> (r: Result<Vec<u8>, ErrorCode>)
    ensures
        match spec_decode_power_status(account_data@) {
            Some(p) => r is Ok && r->Ok_0@ == spec_power_status_bytes(
                (PowerStatus { is_on: !p.is_on }),
            ),
            None => r == Err::<Vec<u8>, ErrorCode>(ErrorCode::MalformedRecord),
        },
{
    let status = match decode_power_status(account_data) {
        Ok(p) => p,
        Err(e) => {
            return Err(e);
        },
    };
    let flipped = PowerStatus { is_on: !status.is_on };
    Ok(encode_power_status(&flipped))
}

} // verus!
