use vstd::prelude::*;

use vstd::bytes::lemma_auto_spec_u32_to_from_le_bytes;
use vstd::bytes::lemma_auto_spec_u64_to_from_le_bytes;
use vstd::bytes::spec_u32_from_le_bytes;
use vstd::bytes::spec_u64_from_le_bytes;
use vstd::bytes::spec_u64_to_le_bytes;
use vstd::bytes::u32_from_le_bytes;
use vstd::bytes::u64_from_le_bytes;
use vstd::bytes::u64_to_le_bytes;
use vstd::slice::slice_index_get;
use vstd::slice::slice_subrange;
use vstd::slice::slice_to_vec;

use crate::errors::ErrorCode;
use crate::escrow::Escrow;
use crate::identity::Identity;
use crate::power::PowerStatus;
use crate::power::SetPowerStatus;

verus! {

/// The single byte that encodes a boolean.
pub open spec fn spec_bool_byte(b: bool) -> u8 {
    if b {
        1u8
    } else {
        0u8
    }
}

/// The 32-byte wire form of an identity: each word little-endian, `w0` first.
pub open spec fn spec_identity_bytes(id: Identity) -> Seq<u8> {
    spec_u64_to_le_bytes(id.w0) + spec_u64_to_le_bytes(id.w1) + spec_u64_to_le_bytes(id.w2)
        + spec_u64_to_le_bytes(id.w3)
}

/// The identity whose wire form is the given 32 bytes.
pub open spec fn spec_identity_from(s: Seq<u8>) -> Identity
    recommends
        s.len() == 32,
{
    Identity {
        w0: spec_u64_from_le_bytes(s.subrange(0, 8)),
        w1: spec_u64_from_le_bytes(s.subrange(8, 16)),
        w2: spec_u64_from_le_bytes(s.subrange(16, 24)),
        w3: spec_u64_from_le_bytes(s.subrange(24, 32)),
    }
}

/// Decoding inverts encoding: every identity round-trips through its 32-byte
/// wire form.
pub proof fn lemma_identity_round_trip(id: Identity)
    ensures
        spec_identity_bytes(id).len() == 32,
        spec_identity_from(spec_identity_bytes(id)) == id,
{
    lemma_auto_spec_u64_to_from_le_bytes();
    let s = spec_identity_bytes(id);
    assert(s.subrange(0, 8) =~= spec_u64_to_le_bytes(id.w0));
    assert(s.subrange(8, 16) =~= spec_u64_to_le_bytes(id.w1));
    assert(s.subrange(16, 24) =~= spec_u64_to_le_bytes(id.w2));
    assert(s.subrange(24, 32) =~= spec_u64_to_le_bytes(id.w3));
}

/// Encoding inverts decoding: any 32 bytes are the wire form of the identity
/// they decode to.
pub proof fn lemma_identity_bytes_exact(s: Seq<u8>)
    requires
        s.len() == 32,
    ensures
        spec_identity_bytes(spec_identity_from(s)) =~= s,
{
    lemma_auto_spec_u64_to_from_le_bytes();
}

/// Appends the little-endian bytes of `x`.
fn push_u64_le(out: &mut Vec<u8>, x: u64)
    ensures
        final(out)@ == old(out)@ + spec_u64_to_le_bytes(x),
{
    let mut b = u64_to_le_bytes(x);
    out.append(&mut b);
}

/// Appends the 32-byte wire form of `id`.
fn push_identity(out: &mut Vec<u8>, id: &Identity)
    ensures
        final(out)@ == old(out)@ + spec_identity_bytes(*id),
{
    push_u64_le(out, id.w0);
    push_u64_le(out, id.w1);
    push_u64_le(out, id.w2);
    push_u64_le(out, id.w3);
    proof {
        assert(out@ =~= old(out)@ + spec_identity_bytes(*id));
    }
}

/// The 32-byte wire form of an identity.
pub fn identity_to_bytes(id: &Identity) -> (r: Vec<u8>)
    ensures
        r@ == spec_identity_bytes(*id),
        r@.len() == 32,
{
    let mut out: Vec<u8> = Vec::new();
    push_identity(&mut out, id);
    proof {
        lemma_identity_round_trip(*id);
        assert(out@ =~= spec_identity_bytes(*id));
    }
    out
}

/// Reads the little-endian 64-bit word at `off`.
fn read_u64_le(bytes: &[u8], off: usize) -> (x: u64)
    requires
        off + 8 <= bytes@.len(),
    ensures
        x == spec_u64_from_le_bytes(bytes@.subrange(off as int, off as int + 8)),
{
    let _len: usize = bytes.len();
    let s = slice_subrange(bytes, off, off + 8);
    u64_from_le_bytes(s)
}

/// Reads the identity whose wire form sits at `off`.
pub fn identity_from_bytes(bytes: &[u8], off: usize) -> (id: Identity)
    requires
        off + 32 <= bytes@.len(),
    ensures
        id == spec_identity_from(bytes@.subrange(off as int, off as int + 32)),
{
    let _len: usize = bytes.len();
    let w0 = read_u64_le(bytes, off);
    let w1 = read_u64_le(bytes, off + 8);
    let w2 = read_u64_le(bytes, off + 16);
    let w3 = read_u64_le(bytes, off + 24);
    proof {
        let s = bytes@.subrange(off as int, off as int + 32);
        assert(bytes@.subrange(off as int, off as int + 8) =~= s.subrange(0, 8));
        assert(bytes@.subrange(off as int + 8, off as int + 16) =~= s.subrange(8, 16));
        assert(bytes@.subrange(off as int + 16, off as int + 24) =~= s.subrange(16, 24));
        assert(bytes@.subrange(off as int + 24, off as int + 32) =~= s.subrange(24, 32));
    }
    Identity { w0, w1, w2, w3 }
}

/// Exact byte length of an encoded escrow record: one boolean byte, three
/// identities, two 64-bit words.
pub const ESCROW_RECORD_LEN: usize = 113;

/// The fixed-order, fixed-width wire form of an escrow record.
pub open spec fn spec_escrow_bytes(e: Escrow) -> Seq<u8> {
    seq![spec_bool_byte(e.is_initialized)] + spec_identity_bytes(e.initializer)
        + spec_identity_bytes(e.temp_token_account)
        + spec_identity_bytes(e.initializer_token_to_receive_account)
        + spec_u64_to_le_bytes(e.expected_amount) + spec_u64_to_le_bytes(e.unlock_time)
}

/// The record the given bytes decode to: exactly `ESCROW_RECORD_LEN` bytes
/// whose boolean byte is 0 or 1, or nothing.
pub open spec fn spec_decode_escrow(bytes: Seq<u8>) -> Option<Escrow> {
    if bytes.len() == ESCROW_RECORD_LEN && (bytes[0] == 0u8 || bytes[0] == 1u8) {
        Some(
            Escrow {
                is_initialized: bytes[0] == 1u8,
                initializer: spec_identity_from(bytes.subrange(1, 33)),
                temp_token_account: spec_identity_from(bytes.subrange(33, 65)),
                initializer_token_to_receive_account: spec_identity_from(bytes.subrange(65, 97)),
                expected_amount: spec_u64_from_le_bytes(bytes.subrange(97, 105)),
                unlock_time: spec_u64_from_le_bytes(bytes.subrange(105, 113)),
            },
        )
    } else {
        None
    }
}

/// Writes a record to its wire form.
pub fn encode_escrow(e: &Escrow) -> (r: Vec<u8>)
    ensures
        r@ == spec_escrow_bytes(*e),
        r@.len() == ESCROW_RECORD_LEN,
{
    let mut out: Vec<u8> = Vec::new();
    if e.is_initialized {
        out.push(1u8);
    } else {
        out.push(0u8);
    }
    push_identity(&mut out, &e.initializer);
    push_identity(&mut out, &e.temp_token_account);
    push_identity(&mut out, &e.initializer_token_to_receive_account);
    push_u64_le(&mut out, e.expected_amount);
    push_u64_le(&mut out, e.unlock_time);
    proof {
        lemma_auto_spec_u64_to_from_le_bytes();
        lemma_identity_round_trip(e.initializer);
        lemma_identity_round_trip(e.temp_token_account);
        lemma_identity_round_trip(e.initializer_token_to_receive_account);
        assert(out@ =~= spec_escrow_bytes(*e));
    }
    out
}

/// Reads a record back from its wire form; `MalformedRecord` exactly when
/// the bytes are not the wire form of any record.
pub fn decode_escrow(bytes: &[u8]) -> (r: Result<Escrow, ErrorCode>)
    ensures
        match spec_decode_escrow(bytes@) {
            Some(e) => r == Ok::<Escrow, ErrorCode>(e),
            None => r == Err::<Escrow, ErrorCode>(ErrorCode::MalformedRecord),
        },
{
    if bytes.len() != ESCROW_RECORD_LEN {
        return Err(ErrorCode::MalformedRecord);
    }
    let flag: u8 = *slice_index_get(bytes, 0);
    if flag != 0u8 && flag != 1u8 {
        return Err(ErrorCode::MalformedRecord);
    }
    let initializer = identity_from_bytes(bytes, 1);
    let temp_token_account = identity_from_bytes(bytes, 33);
    let receive = identity_from_bytes(bytes, 65);
    let expected_amount = read_u64_le(bytes, 97);
    let unlock_time = read_u64_le(bytes, 105);
    Ok(
        Escrow {
            is_initialized: flag == 1u8,
            initializer,
            temp_token_account,
            initializer_token_to_receive_account: receive,
            expected_amount,
            unlock_time,
        },
    )
}

/// Decoding inverts encoding: every record round-trips through its wire
/// form exactly.
pub proof fn lemma_escrow_round_trip(e: Escrow)
    ensures
        spec_escrow_bytes(e).len() == ESCROW_RECORD_LEN,
        spec_decode_escrow(spec_escrow_bytes(e)) == Some(e),
{
    lemma_auto_spec_u64_to_from_le_bytes();
    lemma_identity_round_trip(e.initializer);
    lemma_identity_round_trip(e.temp_token_account);
    lemma_identity_round_trip(e.initializer_token_to_receive_account);
    let s = spec_escrow_bytes(e);
    assert(s.subrange(1, 33) =~= spec_identity_bytes(e.initializer));
    assert(s.subrange(33, 65) =~= spec_identity_bytes(e.temp_token_account));
    assert(s.subrange(65, 97) =~= spec_identity_bytes(e.initializer_token_to_receive_account));
    assert(s.subrange(97, 105) =~= spec_u64_to_le_bytes(e.expected_amount));
    assert(s.subrange(105, 113) =~= spec_u64_to_le_bytes(e.unlock_time));
}

/// Encoding inverts decoding: whatever bytes decode as a record are exactly
/// that record's wire form — stored records round-trip through the account
/// byte for byte.
pub proof fn lemma_escrow_bytes_exact(bytes: Seq<u8>)
    requires
        spec_decode_escrow(bytes) is Some,
    ensures
        spec_escrow_bytes(spec_decode_escrow(bytes)->Some_0) =~= bytes,
{
    lemma_auto_spec_u64_to_from_le_bytes();
    lemma_identity_bytes_exact(bytes.subrange(1, 33));
    lemma_identity_bytes_exact(bytes.subrange(33, 65));
    lemma_identity_bytes_exact(bytes.subrange(65, 97));
}

/// One instruction for the escrow program, told apart by an explicit tag
/// byte rather than trial decoding: 0 initializes with the expected amount,
/// 1 exchanges with the claimed amount, 2 resets the lock height.
#[derive(Clone, Copy, PartialEq, Eq, Structural, Debug)]
pub enum EscrowInstruction {
    Initialize(u64),
    Exchange(u64),
    ResetLockTime,
}

/// The tagged wire form of an escrow instruction: a tag byte, then the
/// amount little-endian where the instruction carries one.
pub open spec fn spec_escrow_instruction_bytes(i: EscrowInstruction) -> Seq<u8> {
    match i {
        EscrowInstruction::Initialize(amount) => seq![0u8] + spec_u64_to_le_bytes(amount),
        EscrowInstruction::Exchange(amount) => seq![1u8] + spec_u64_to_le_bytes(amount),
        EscrowInstruction::ResetLockTime => seq![2u8],
    }
}

/// The instruction the given bytes decode to, or nothing: the tag byte is
/// inspected first, and the length must fit the tagged shape exactly.
pub open spec fn spec_decode_escrow_instruction(bytes: Seq<u8>) -> Option<EscrowInstruction> {
    if bytes.len() == 9 && bytes[0] == 0u8 {
        Some(EscrowInstruction::Initialize(spec_u64_from_le_bytes(bytes.subrange(1, 9))))
    } else if bytes.len() == 9 && bytes[0] == 1u8 {
        Some(EscrowInstruction::Exchange(spec_u64_from_le_bytes(bytes.subrange(1, 9))))
    } else if bytes.len() == 1 && bytes[0] == 2u8 {
        Some(EscrowInstruction::ResetLockTime)
    } else {
        None
    }
}

/// Writes an escrow instruction to its tagged wire form.
pub fn encode_escrow_instruction(i: &EscrowInstruction) -> (r: Vec<u8>)
    ensures
        r@ == spec_escrow_instruction_bytes(*i),
{
    let mut out: Vec<u8> = Vec::new();
    match i {
        EscrowInstruction::Initialize(amount) => {
            out.push(0u8);
            push_u64_le(&mut out, *amount);
        },
        EscrowInstruction::Exchange(amount) => {
            out.push(1u8);
            push_u64_le(&mut out, *amount);
        },
        EscrowInstruction::ResetLockTime => {
            out.push(2u8);
        },
    }
    proof {
        assert(out@ =~= spec_escrow_instruction_bytes(*i));
    }
    out
}

/// Reads an escrow instruction from its tagged wire form; `MalformedRecord`
/// exactly when the bytes fit no tagged shape.
pub fn decode_escrow_instruction(bytes: &[u8]) -> (r: Result<EscrowInstruction, ErrorCode>)
    ensures
        match spec_decode_escrow_instruction(bytes@) {
            Some(i) => r == Ok::<EscrowInstruction, ErrorCode>(i),
            None => r == Err::<EscrowInstruction, ErrorCode>(ErrorCode::MalformedRecord),
        },
{
    if bytes.len() == 0 {
        return Err(ErrorCode::MalformedRecord);
    }
    let tag: u8 = *slice_index_get(bytes, 0);
    if (tag == 0u8 || tag == 1u8) && bytes.len() == 9 {
        let amount = read_u64_le(bytes, 1);
        if tag == 0u8 {
            Ok(EscrowInstruction::Initialize(amount))
        } else {
            Ok(EscrowInstruction::Exchange(amount))
        }
    } else if tag == 2u8 && bytes.len() == 1 {
        Ok(EscrowInstruction::ResetLockTime)
    } else {
        Err(ErrorCode::MalformedRecord)
    }
}

/// Every escrow instruction round-trips through its tagged wire form, so no
/// bytes decode as two different instructions.
pub proof fn lemma_escrow_instruction_round_trip(i: EscrowInstruction)
    ensures
        spec_decode_escrow_instruction(spec_escrow_instruction_bytes(i)) == Some(i),
{
    lemma_auto_spec_u64_to_from_le_bytes();
    match i {
        EscrowInstruction::Initialize(amount) => {
            let s = spec_escrow_instruction_bytes(i);
            assert(s.subrange(1, 9) =~= spec_u64_to_le_bytes(amount));
        },
        EscrowInstruction::Exchange(amount) => {
            let s = spec_escrow_instruction_bytes(i);
            assert(s.subrange(1, 9) =~= spec_u64_to_le_bytes(amount));
        },
        EscrowInstruction::ResetLockTime => {},
    }
}

/// The one-byte wire form of the toggle program's stored state.
pub open spec fn spec_power_status_bytes(p: PowerStatus) -> Seq<u8> {
    seq![spec_bool_byte(p.is_on)]
}

/// The stored state the given bytes decode to: exactly one byte, 0 or 1.
pub open spec fn spec_decode_power_status(bytes: Seq<u8>) -> Option<PowerStatus> {
    if bytes.len() == 1 && (bytes[0] == 0u8 || bytes[0] == 1u8) {
        Some((PowerStatus { is_on: bytes[0] == 1u8 }))
    } else {
        None
    }
}

/// Writes the toggle state to its wire form.
pub fn encode_power_status(p: &PowerStatus) -> (r: Vec<u8>)
    ensures
        r@ == spec_power_status_bytes(*p),
        r@.len() == 1,
{
    let mut out: Vec<u8> = Vec::new();
    if p.is_on {
        out.push(1u8);
    } else {
        out.push(0u8);
    }
    proof {
        assert(out@ =~= spec_power_status_bytes(*p));
    }
    out
}

/// Reads the toggle state back from its wire form; `MalformedRecord` exactly
/// when the bytes are not the wire form of any state.
pub fn decode_power_status(bytes: &[u8]) -> (r: Result<PowerStatus, ErrorCode>)
    ensures
        match spec_decode_power_status(bytes@) {
            Some(p) => r == Ok::<PowerStatus, ErrorCode>(p),
            None => r == Err::<PowerStatus, ErrorCode>(ErrorCode::MalformedRecord),
        },
{
    if bytes.len() != 1 {
        return Err(ErrorCode::MalformedRecord);
    }
    let flag: u8 = *slice_index_get(bytes, 0);
    if flag != 0u8 && flag != 1u8 {
        return Err(ErrorCode::MalformedRecord);
    }
    Ok(PowerStatus { is_on: flag == 1u8 })
}

/// Every toggle state round-trips through its wire form.
pub proof fn lemma_power_status_round_trip(p: PowerStatus)
    ensures
        spec_decode_power_status(spec_power_status_bytes(p)) == Some(p),
{
}

/// The characters whose UTF-8 encoding is the given bytes, if the bytes are
/// valid UTF-8.
pub uninterp spec fn utf8_decoded(bytes: Seq<u8>) -> Option<Seq<char>>;

/// Relies on String::from_utf8: returns the string whose UTF-8 encoding is
/// the given bytes, and nothing when the bytes are not valid UTF-8; the
/// outcome depends on the bytes alone.
#[verifier::external_body]
fn string_from_utf8(v: Vec<u8>) -> (r: Option<String>)
    ensures
        match r {
            Some(s) => utf8_decoded(v@) == Some(s@),
            None => utf8_decoded(v@) is None,
        },
{
    std::string::String::from_utf8(v).ok()
}

/// The name-carrying payload is well-shaped: a 4-byte little-endian length
/// prefix followed by exactly that many bytes.
pub open spec fn spec_set_power_shape(bytes: Seq<u8>) -> bool {
    bytes.len() >= 4 && 4 + spec_u32_from_le_bytes(bytes.subrange(0, 4)) == bytes.len()
}

/// The name the given bytes decode to: a well-shaped payload whose bytes
/// after the prefix are valid UTF-8, or nothing.
pub open spec fn spec_decode_set_power(bytes: Seq<u8>) -> Option<Seq<char>> {
    if spec_set_power_shape(bytes) {
        utf8_decoded(bytes.subrange(4, bytes.len() as int))
    } else {
        None
    }
}

/// Reads a name-carrying instruction payload: a 4-byte little-endian length
/// prefix, then that many bytes of UTF-8. `MalformedRecord` exactly when the
/// shape or the encoding is wrong.
pub fn decode_set_power_status(bytes: &[u8]) -> (r: Result<SetPowerStatus, ErrorCode>)
    ensures
        match spec_decode_set_power(bytes@) {
            Some(name) => r is Ok && r->Ok_0.name@ == name,
            None => r == Err::<SetPowerStatus, ErrorCode>(ErrorCode::MalformedRecord),
        },
{
    if bytes.len() < 4 {
        return Err(ErrorCode::MalformedRecord);
    }
    let prefix = slice_subrange(bytes, 0, 4);
    let n: u32 = u32_from_le_bytes(prefix);
    proof {
        lemma_auto_spec_u32_to_from_le_bytes();
    }
    if bytes.len() - 4 != (n as usize) {
        return Err(ErrorCode::MalformedRecord);
    }
    let payload = slice_subrange(bytes, 4, bytes.len());
    let owned: Vec<u8> = slice_to_vec(payload);
    match string_from_utf8(owned) {
        Some(name) => Ok(SetPowerStatus { name }),
        None => Err(ErrorCode::MalformedRecord),
    }
}

} // verus!
