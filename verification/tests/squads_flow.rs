use std::str::FromStr;

use solana_program::pubkey::Pubkey;
use tx_assembly::address::{parse_address, Address};
use tx_assembly::error::ActionError;
use tx_assembly::squads::{build_create_transaction, create};

const VALID_ACCOUNT: &str = "11111111111111111111111111111111";

#[test]
fn create_succeeds_with_valid_lengths() {
    let description = "d".repeat(64);
    let t = create(VALID_ACCOUNT, "Team", &description).unwrap();
    assert_eq!(t.transaction.instructions.len(), 1);
    assert_eq!(t.message, Some("Multisig successfully created!".to_string()));
}

#[test]
fn create_rejects_a_65_byte_description() {
    let description = "d".repeat(65);
    match create(VALID_ACCOUNT, "Team", &description) {
        Err(e) => assert_eq!(e, ActionError::InvalidDescriptionLength),
        Ok(_) => panic!("a 65-byte description must be rejected"),
    }
}

#[test]
fn create_rejects_a_37_byte_name() {
    let name = "n".repeat(37);
    match create(VALID_ACCOUNT, &name, "fine") {
        Err(e) => assert_eq!(e, ActionError::InvalidNameLength),
        Ok(_) => panic!("a 37-byte name must be rejected"),
    }
}

#[test]
fn create_accepts_a_36_byte_name() {
    let name = "n".repeat(36);
    assert!(create(VALID_ACCOUNT, &name, "fine").is_ok());
}

#[test]
fn create_rejects_a_malformed_account() {
    match create("this is no address", "Team", "fine") {
        Err(e) => assert_eq!(e, ActionError::InvalidAccountPublicKey),
        Ok(_) => panic!("a malformed account string must be rejected"),
    }
}

#[test]
fn create_transaction_bytes_match_the_squads_wire_form() {
    let account = parse_address(VALID_ACCOUNT).unwrap();
    let create_key = Address { bytes: vec![7u8; 32] };
    let name = "Team";
    let description = "The team treasury";
    let t = build_create_transaction(&account, &create_key, name, description).unwrap();
    assert_eq!(t.transaction.instructions.len(), 1);
    let ix = &t.transaction.instructions[0];

    let squads_program = Pubkey::from_str("SMPLecH534NA9acpos4G6x7uf3LWbCAwZQE9e8ZekMu").unwrap();
    assert_eq!(ix.program_id.bytes, squads_program.to_bytes().to_vec());

    // The payload: the fixed discriminant, then the borsh form of the
    // argument record with the metadata JSON in declared field order.
    let meta = format!(
        "{{\"name\":\"{}\",\"description\":\"{}\",\"image\":\"\"}}",
        name, description
    );
    let discriminant: [u8; 8] = [24, 30, 200, 40, 5, 28, 7, 119];
    let expected = borsh::to_vec(&(
        discriminant,
        (1u16, [7u8; 32], vec![[0u8; 32]], meta),
    ))
    .unwrap();
    assert_eq!(ix.data, expected);

    // The accounts: derived squad key (writable), the signing caller
    // (writable), the system program (read-only).
    let (squads_key, _) = Pubkey::find_program_address(
        &[b"squad", &[7u8; 32], b"multisig"],
        &squads_program,
    );
    assert_eq!(ix.accounts.len(), 3);
    assert_eq!(ix.accounts[0].address.bytes, squads_key.to_bytes().to_vec());
    assert!(ix.accounts[0].is_writable && !ix.accounts[0].is_signer);
    assert_eq!(ix.accounts[1].address.bytes, vec![0u8; 32]);
    assert!(ix.accounts[1].is_writable && ix.accounts[1].is_signer);
    assert_eq!(
        ix.accounts[2].address.bytes,
        Pubkey::from_str("11111111111111111111111111111111")
            .unwrap()
            .to_bytes()
            .to_vec()
    );
    assert!(!ix.accounts[2].is_writable && !ix.accounts[2].is_signer);
}

#[test]
fn build_create_transaction_is_deterministic() {
    let account = parse_address(VALID_ACCOUNT).unwrap();
    let create_key = Address { bytes: vec![42u8; 32] };
    let a = build_create_transaction(&account, &create_key, "n", "d").unwrap();
    let b = build_create_transaction(&account, &create_key, "n", "d").unwrap();
    assert_eq!(
        a.transaction.instructions[0].data,
        b.transaction.instructions[0].data
    );
}
