use std::str::FromStr;

use solana_program::pubkey::Pubkey;
use tx_assembly::address::{parse_address, Derived};
use tx_assembly::ids;
use tx_assembly::instruction::get_associated_token_address;
use tx_assembly::staking::user_state_address;

fn parsed_bytes(s: &str) -> [u8; 32] {
    Pubkey::from_str(s).unwrap().to_bytes()
}

#[test]
fn fixed_ids_match_their_base58_strings() {
    assert_eq!(
        ids::squads_program_id().bytes,
        parsed_bytes("SMPLecH534NA9acpos4G6x7uf3LWbCAwZQE9e8ZekMu").to_vec()
    );
    assert_eq!(
        ids::kmno_mint_address().bytes,
        parsed_bytes("KMNo3nJsBXfcpJTVhZcXLW7RmTwTt4GVFE7suUBo9sS").to_vec()
    );
    assert_eq!(
        ids::kmno_staking_program_id().bytes,
        parsed_bytes("FarmsPZpWu9i7Kky8tPN37rs2TpmMrAZrC7S7vJa91Hr").to_vec()
    );
    assert_eq!(
        ids::kmno_farm_state().bytes,
        parsed_bytes("2sFZDpBn4sA42uNbAD6QzQ98rPSmqnPyksYe6SJKVvay").to_vec()
    );
    assert_eq!(
        ids::kmno_farm_vault().bytes,
        parsed_bytes("5xpGE38rm4ZqAgQiuocqkw6cM6Cwrwvx6BVJk6i2oKhv").to_vec()
    );
    assert_eq!(
        ids::kmno_farm_vault_authority().bytes,
        parsed_bytes("Ec6MuWtpvFcVyMsp7vipKCg1CMkKrWHZpWPdnJF16G57").to_vec()
    );
    assert_eq!(
        ids::kmno_scope_prices().bytes,
        parsed_bytes("FarmsPZpWu9i7Kky8tPN37rs2TpmMrAZrC7S7vJa91Hr").to_vec()
    );
    assert_eq!(
        ids::rent_sysvar_id().bytes,
        parsed_bytes("SysvarRent111111111111111111111111111111111").to_vec()
    );
    assert_eq!(ids::system_program_id().bytes, vec![0u8; 32]);
    assert_eq!(
        ids::token_program_id().bytes,
        parsed_bytes("TokenkegQfeZyiNwAJbNbGKPFXCWuBvf9Ss623VQ5DA").to_vec()
    );
    assert_eq!(
        ids::associated_token_program_id().bytes,
        parsed_bytes("ATokenGPvbdGVxr1b2hvZbsiqW5xWH25efTNsLJA8knL").to_vec()
    );
    assert_eq!(
        ids::send_mint_address().bytes,
        parsed_bytes("SENDdRQtYMWaQrBroBrJ2Q53fgVuq95CV9UPGEvpCxa").to_vec()
    );
}

#[test]
fn parse_address_decodes_base58() {
    let a = parse_address("11111111111111111111111111111111").unwrap();
    assert_eq!(a.bytes, vec![0u8; 32]);
    let b = parse_address("TokenkegQfeZyiNwAJbNbGKPFXCWuBvf9Ss623VQ5DA").unwrap();
    assert_eq!(
        b.bytes,
        parsed_bytes("TokenkegQfeZyiNwAJbNbGKPFXCWuBvf9Ss623VQ5DA").to_vec()
    );
    assert!(parse_address("not-an-address!").is_none());
    assert!(parse_address("").is_none());
}

#[test]
fn user_state_search_matches_ledger_derivation() {
    let account = parse_address("TokenkegQfeZyiNwAJbNbGKPFXCWuBvf9Ss623VQ5DA").unwrap();
    let farm_state = Pubkey::from_str("2sFZDpBn4sA42uNbAD6QzQ98rPSmqnPyksYe6SJKVvay").unwrap();
    let program = Pubkey::from_str("FarmsPZpWu9i7Kky8tPN37rs2TpmMrAZrC7S7vJa91Hr").unwrap();
    let wallet = Pubkey::from_str("TokenkegQfeZyiNwAJbNbGKPFXCWuBvf9Ss623VQ5DA").unwrap();
    let (expected, expected_bump) = Pubkey::find_program_address(
        &[b"user", farm_state.as_ref(), wallet.as_ref()],
        &program,
    );
    match user_state_address(&account) {
        Derived::Found(addr, bump) => {
            assert_eq!(addr.bytes, expected.to_bytes().to_vec());
            assert_eq!(bump, expected_bump);
        }
        Derived::Exhausted => panic!("derivation unexpectedly exhausted"),
    }
}

#[test]
fn derivation_is_deterministic() {
    let account = parse_address("KMNo3nJsBXfcpJTVhZcXLW7RmTwTt4GVFE7suUBo9sS").unwrap();
    let first = user_state_address(&account);
    let second = user_state_address(&account);
    match (first, second) {
        (Derived::Found(a1, b1), Derived::Found(a2, b2)) => {
            assert_eq!(a1.bytes, a2.bytes);
            assert_eq!(b1, b2);
        }
        _ => panic!("derivation unexpectedly exhausted"),
    }
}

#[test]
fn associated_token_address_matches_spl() {
    let wallet_str = "KMNo3nJsBXfcpJTVhZcXLW7RmTwTt4GVFE7suUBo9sS";
    let mint_str = "SENDdRQtYMWaQrBroBrJ2Q53fgVuq95CV9UPGEvpCxa";
    let wallet = parse_address(wallet_str).unwrap();
    let mint = parse_address(mint_str).unwrap();
    let token_program = tx_assembly::ids::token_program_id();
    let spl_wallet = Pubkey::from_str(wallet_str).unwrap();
    let spl_mint = Pubkey::from_str(mint_str).unwrap();
    #[allow(deprecated)]
    let expected =
        spl_associated_token_account::get_associated_token_address(&spl_wallet, &spl_mint);
    match get_associated_token_address(&wallet, &mint, &token_program) {
        Derived::Found(addr, _) => assert_eq!(addr.bytes, expected.to_bytes().to_vec()),
        Derived::Exhausted => panic!("derivation unexpectedly exhausted"),
    }
}
