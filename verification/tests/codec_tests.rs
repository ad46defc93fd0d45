use solana_escrow::codec::decode_escrow;
use solana_escrow::codec::decode_escrow_instruction;
use solana_escrow::codec::encode_escrow_instruction;
use solana_escrow::codec::EscrowInstruction;
use solana_escrow::codec::decode_power_status;
use solana_escrow::codec::decode_set_power_status;
use solana_escrow::codec::encode_escrow;
use solana_escrow::codec::encode_power_status;
use solana_escrow::codec::identity_from_bytes;
use solana_escrow::codec::identity_to_bytes;
use solana_escrow::errors::ErrorCode;
use solana_escrow::escrow::Escrow;
use solana_escrow::identity::Identity;
use solana_escrow::power::PowerStatus;

fn sample_record() -> Escrow {
    Escrow {
        is_initialized: true,
        initializer: Identity { w0: 1, w1: 2, w2: 3, w3: 4 },
        temp_token_account: Identity { w0: 5, w1: 6, w2: 7, w3: 8 },
        initializer_token_to_receive_account: Identity { w0: 9, w1: 10, w2: 11, w3: 12 },
        expected_amount: 250,
        unlock_time: 110,
    }
}

#[test]
fn identity_wire_form_is_little_endian() {
    let id = Identity { w0: 0x0102, w1: 0, w2: 0, w3: u64::MAX };
    let bytes = identity_to_bytes(&id);
    assert_eq!(bytes.len(), 32);
    assert_eq!(bytes[0], 0x02);
    assert_eq!(bytes[1], 0x01);
    assert_eq!(&bytes[2..24], &[0u8; 22]);
    assert_eq!(&bytes[24..32], &[0xFFu8; 8]);
}

#[test]
fn identity_round_trips() {
    let id = Identity { w0: 77, w1: u64::MAX, w2: 0, w3: 123_456_789 };
    let bytes = identity_to_bytes(&id);
    assert_eq!(identity_from_bytes(&bytes, 0), id);
}

#[test]
fn escrow_record_round_trips() {
    let record = sample_record();
    let bytes = encode_escrow(&record);
    assert_eq!(bytes.len(), 113);
    assert_eq!(bytes[0], 1);
    assert_eq!(decode_escrow(&bytes), Ok(record));
}

#[test]
fn uninitialized_record_round_trips() {
    let record = Escrow { is_initialized: false, ..sample_record() };
    let bytes = encode_escrow(&record);
    assert_eq!(bytes[0], 0);
    assert_eq!(decode_escrow(&bytes), Ok(record));
}

#[test]
fn escrow_decode_rejects_bad_flag() {
    let mut bytes = encode_escrow(&sample_record());
    bytes[0] = 2;
    assert_eq!(decode_escrow(&bytes), Err(ErrorCode::MalformedRecord));
}

#[test]
fn escrow_decode_rejects_wrong_length() {
    let mut bytes = encode_escrow(&sample_record());
    bytes.push(0);
    assert_eq!(decode_escrow(&bytes), Err(ErrorCode::MalformedRecord));
    assert_eq!(decode_escrow(&bytes[..112]), Err(ErrorCode::MalformedRecord));
    assert_eq!(decode_escrow(&[]), Err(ErrorCode::MalformedRecord));
}

#[test]
fn power_status_round_trips() {
    for is_on in [false, true] {
        let bytes = encode_power_status(&PowerStatus { is_on });
        assert_eq!(bytes.len(), 1);
        assert_eq!(decode_power_status(&bytes), Ok(PowerStatus { is_on }));
    }
}

#[test]
fn power_status_decode_rejects_bad_bytes() {
    assert_eq!(decode_power_status(&[2]), Err(ErrorCode::MalformedRecord));
    assert_eq!(decode_power_status(&[]), Err(ErrorCode::MalformedRecord));
    assert_eq!(decode_power_status(&[0, 0]), Err(ErrorCode::MalformedRecord));
}

#[test]
fn set_power_status_decodes_prefixed_name() {
    let bytes = [3u8, 0, 0, 0, b'a', b'b', b'c'];
    let decoded = decode_set_power_status(&bytes).unwrap();
    assert_eq!(decoded.name, "abc");
}

#[test]
fn set_power_status_decodes_empty_name() {
    let bytes = [0u8, 0, 0, 0];
    let decoded = decode_set_power_status(&bytes).unwrap();
    assert_eq!(decoded.name, "");
}

#[test]
fn set_power_status_rejects_wrong_prefix() {
    let bytes = [5u8, 0, 0, 0, b'a'];
    assert_eq!(
        decode_set_power_status(&bytes).map(|s| s.name),
        Err(ErrorCode::MalformedRecord)
    );
    assert_eq!(
        decode_set_power_status(&[1u8, 0]).map(|s| s.name),
        Err(ErrorCode::MalformedRecord)
    );
}

#[test]
fn set_power_status_rejects_invalid_utf8() {
    let bytes = [1u8, 0, 0, 0, 0xFF];
    assert_eq!(
        decode_set_power_status(&bytes).map(|s| s.name),
        Err(ErrorCode::MalformedRecord)
    );
}

#[test]
fn escrow_instruction_round_trips() {
    for instruction in [
        EscrowInstruction::Initialize(250),
        EscrowInstruction::Exchange(u64::MAX),
        EscrowInstruction::ResetLockTime,
    ] {
        let bytes = encode_escrow_instruction(&instruction);
        assert_eq!(decode_escrow_instruction(&bytes), Ok(instruction));
    }
}

#[test]
fn escrow_instruction_exact_wire_form() {
    assert_eq!(
        encode_escrow_instruction(&EscrowInstruction::Exchange(500)),
        vec![1u8, 244, 1, 0, 0, 0, 0, 0, 0]
    );
    assert_eq!(encode_escrow_instruction(&EscrowInstruction::ResetLockTime), vec![2u8]);
}

#[test]
fn escrow_instruction_rejects_bad_shapes() {
    assert_eq!(decode_escrow_instruction(&[]), Err(ErrorCode::MalformedRecord));
    assert_eq!(decode_escrow_instruction(&[3]), Err(ErrorCode::MalformedRecord));
    assert_eq!(decode_escrow_instruction(&[0, 1, 2]), Err(ErrorCode::MalformedRecord));
    assert_eq!(
        decode_escrow_instruction(&[2, 0, 0, 0, 0, 0, 0, 0, 0]),
        Err(ErrorCode::MalformedRecord)
    );
}
