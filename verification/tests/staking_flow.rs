use sha2::Digest;
use tx_assembly::address::parse_address;
use tx_assembly::error::ActionError;
use tx_assembly::staking::{
    stake, stake_instruction, withdraw_unstaked_deposits_instruction, ProbeOutcome, StakeMethod,
};

const ACCOUNT: &str = "TokenkegQfeZyiNwAJbNbGKPFXCWuBvf9Ss623VQ5DA";

fn discriminant_of(name: &[u8]) -> Vec<u8> {
    sha2::Sha256::digest(name)[..8].to_vec()
}

#[test]
fn missing_account_prepends_exactly_one_initialization() {
    let account = parse_address(ACCOUNT).unwrap();
    let v = stake_instruction(&account, 5, ProbeOutcome::DoesNotExist).unwrap();
    assert_eq!(v.len(), 2);
    assert_eq!(v[0].data, discriminant_of(b"global:initialize_user"));
    assert_eq!(&v[1].data[..8], &discriminant_of(b"global:stake")[..]);
}

#[test]
fn existing_account_prepends_no_initialization() {
    let account = parse_address(ACCOUNT).unwrap();
    let v = stake_instruction(&account, 5, ProbeOutcome::Exists).unwrap();
    assert_eq!(v.len(), 1);
    assert_eq!(&v[0].data[..8], &discriminant_of(b"global:stake")[..]);
}

#[test]
fn failed_probe_is_surfaced_not_guessed() {
    let account = parse_address(ACCOUNT).unwrap();
    match stake_instruction(&account, 5, ProbeOutcome::QueryFailed) {
        Err(e) => assert_eq!(e, ActionError::LedgerQueryFailure),
        Ok(_) => panic!("a failed probe must fail the request"),
    }
}

#[test]
fn zero_amount_still_succeeds_and_encodes_zero() {
    let account = parse_address(ACCOUNT).unwrap();
    let v = stake_instruction(&account, 0, ProbeOutcome::Exists).unwrap();
    assert_eq!(v.len(), 1);
    let data = &v[0].data;
    assert_eq!(data.len(), 16);
    assert_eq!(&data[8..], &[0u8; 8]);
}

#[test]
fn stake_amount_is_scaled_to_smallest_units() {
    let account = parse_address(ACCOUNT).unwrap();
    let v = stake_instruction(&account, 3, ProbeOutcome::Exists).unwrap();
    assert_eq!(&v[0].data[8..], &3_000_000u64.to_le_bytes()[..]);
}

#[test]
fn oversized_stake_amount_is_invalid_input() {
    let account = parse_address(ACCOUNT).unwrap();
    match stake_instruction(&account, 18_446_744_073_710, ProbeOutcome::Exists) {
        Err(e) => assert_eq!(e, ActionError::InvalidAmount),
        Ok(_) => panic!("an amount that cannot be scaled must be rejected"),
    }
}

#[test]
fn withdrawal_is_unstake_then_withdraw() {
    let account = parse_address(ACCOUNT).unwrap();
    let v = withdraw_unstaked_deposits_instruction(&account, 2).unwrap();
    assert_eq!(v.len(), 2);
    assert_eq!(&v[0].data[..8], &discriminant_of(b"global:unstake")[..]);
    assert_eq!(
        v[1].data,
        discriminant_of(b"global:withdraw_unstaked_deposits")
    );
    // The unstake amount is scaled by ten to the twenty-fourth.
    let scaled = 2u128 * 1_000_000_000_000_000_000_000_000u128;
    assert_eq!(&v[0].data[8..], &scaled.to_le_bytes()[..]);
}

#[test]
fn stake_transaction_orders_creation_init_stake() {
    let t = stake(ACCOUNT, StakeMethod::Stake, 1, ProbeOutcome::DoesNotExist).unwrap();
    let v = &t.transaction.instructions;
    assert_eq!(v.len(), 3);
    assert_eq!(v[0].data, vec![1u8]);
    assert_eq!(v[1].data, discriminant_of(b"global:initialize_user"));
    assert_eq!(&v[2].data[..8], &discriminant_of(b"global:stake")[..]);
    assert_eq!(t.message, Some("STAKE successfully completed".to_string()));
}

#[test]
fn unstake_transaction_orders_creation_unstake_withdraw() {
    let t = stake(ACCOUNT, StakeMethod::Unstake, 1, ProbeOutcome::Exists).unwrap();
    let v = &t.transaction.instructions;
    assert_eq!(v.len(), 3);
    assert_eq!(v[0].data, vec![1u8]);
    assert_eq!(&v[1].data[..8], &discriminant_of(b"global:unstake")[..]);
    assert_eq!(
        v[2].data,
        discriminant_of(b"global:withdraw_unstaked_deposits")
    );
    assert_eq!(t.message, Some("UNSTAKE successfully completed".to_string()));
}

#[test]
fn stake_rejects_a_malformed_account() {
    match stake("nope", StakeMethod::Stake, 1, ProbeOutcome::Exists) {
        Err(e) => assert_eq!(e, ActionError::InvalidAccountPublicKey),
        Ok(_) => panic!("a malformed account string must be rejected"),
    }
}
