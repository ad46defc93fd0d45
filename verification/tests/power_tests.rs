use solana_escrow::errors::ErrorCode;
use solana_escrow::identity::Identity;
use solana_escrow::power::initialize;
use solana_escrow::power::process_instruction;
use solana_escrow::power::switch_power;
use solana_escrow::power::PowerInstruction;
use solana_escrow::power::PowerStatus;

fn ident(n: u64) -> Identity {
    Identity { w0: n, w1: 0, w2: 0, w3: 0 }
}

#[test]
fn dispatch_recognizes_power_status_shape() {
    match process_instruction(&[1]).unwrap() {
        PowerInstruction::Initialize(p) => assert!(p.is_on),
        other => panic!("wrong shape: {:?}", other),
    }
    match process_instruction(&[0]).unwrap() {
        PowerInstruction::Initialize(p) => assert!(!p.is_on),
        other => panic!("wrong shape: {:?}", other),
    }
}

#[test]
fn dispatch_recognizes_name_shape() {
    let bytes = [2u8, 0, 0, 0, b'h', b'i'];
    match process_instruction(&bytes).unwrap() {
        PowerInstruction::SwitchPower(s) => assert_eq!(s.name, "hi"),
        other => panic!("wrong shape: {:?}", other),
    }
}

#[test]
fn dispatch_rejects_unrecognized_bytes() {
    assert!(matches!(process_instruction(&[2]), Err(ErrorCode::MalformedRecord)));
    assert!(matches!(process_instruction(&[]), Err(ErrorCode::MalformedRecord)));
    assert!(matches!(
        process_instruction(&[9, 0, 0, 0, 1]),
        Err(ErrorCode::MalformedRecord)
    ));
}

#[test]
fn initialize_plans_exactly_sized_account() {
    let accounts = vec![ident(1), ident(2), ident(3)];
    let (plan, data) = initialize(&accounts, &PowerStatus { is_on: true }, 890).unwrap();
    assert_eq!(plan.new_account, ident(1));
    assert_eq!(plan.funder, ident(2));
    assert_eq!(plan.lamports, 890);
    assert_eq!(plan.space, 1);
    assert_eq!(data, vec![1u8]);
}

#[test]
fn initialize_requires_three_participants() {
    let accounts = vec![ident(1), ident(2)];
    let r = initialize(&accounts, &PowerStatus { is_on: false }, 890);
    assert!(matches!(r, Err(ErrorCode::MissingParticipant)));
}

#[test]
fn switch_power_flips_stored_flag() {
    assert_eq!(switch_power(&[0]).unwrap(), vec![1u8]);
    assert_eq!(switch_power(&[1]).unwrap(), vec![0u8]);
}

#[test]
fn switch_power_rejects_malformed_state() {
    assert!(matches!(switch_power(&[3]), Err(ErrorCode::MalformedRecord)));
    assert!(matches!(switch_power(&[]), Err(ErrorCode::MalformedRecord)));
}
