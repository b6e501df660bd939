use std::str::FromStr;

use tx_assembly::error::ActionError;
use tx_assembly::payments::{pay, prepare_pay};
use tx_assembly::quote::{
    decode_instruction, get_swap_instructions, SwapFetchOutcome, TransportAccountMeta,
    TransportInstruction, TransportSwapInstructions,
};

const ACCOUNT: &str = "TokenkegQfeZyiNwAJbNbGKPFXCWuBvf9Ss623VQ5DA";
const RECEIVER: &str = "KMNo3nJsBXfcpJTVhZcXLW7RmTwTt4GVFE7suUBo9sS";
const MINT: &str = "SENDdRQtYMWaQrBroBrJ2Q53fgVuq95CV9UPGEvpCxa";

fn transport_ix(tag: &str, data_b64: &str) -> TransportInstruction {
    TransportInstruction {
        program_id: tag.to_string(),
        accounts: vec![TransportAccountMeta {
            pubkey: ACCOUNT.to_string(),
            is_signer: true,
            is_writable: false,
        }],
        data: data_b64.to_string(),
    }
}

fn minimal_response() -> TransportSwapInstructions {
    TransportSwapInstructions {
        token_ledger_instruction: None,
        compute_budget_instructions: vec![transport_ix(ACCOUNT, "AQ==")],
        setup_instructions: vec![],
        swap_instruction: transport_ix(MINT, "TWFu"),
        cleanup_instruction: Some(transport_ix(RECEIVER, "")),
        address_lookup_table_addresses: vec![ACCOUNT.to_string()],
        prioritization_fee_lamports: 7,
    }
}

#[test]
fn base64_payloads_are_decoded() {
    let ix = decode_instruction(&transport_ix(MINT, "TWFu")).unwrap();
    assert_eq!(ix.data, b"Man".to_vec());
    assert_eq!(ix.accounts.len(), 1);
    assert!(ix.accounts[0].is_signer && !ix.accounts[0].is_writable);
}

#[test]
fn malformed_base64_is_an_invalid_response_body() {
    match decode_instruction(&transport_ix(MINT, "not base64 !!")) {
        Err(e) => assert_eq!(e, ActionError::InvalidResponseBody),
        Ok(_) => panic!("malformed base64 must be rejected"),
    }
}

#[test]
fn malformed_program_address_is_an_invalid_response_body() {
    match decode_instruction(&transport_ix("broken", "TWFu")) {
        Err(e) => assert_eq!(e, ActionError::InvalidResponseBody),
        Ok(_) => panic!("a malformed program address must be rejected"),
    }
}

#[test]
fn http_500_halts_the_pipeline_before_assembly() {
    let ctx = prepare_pay(ACCOUNT, RECEIVER, MINT).unwrap();
    match pay(ctx, SwapFetchOutcome::HttpError(500)) {
        Err(e) => assert_eq!(e, ActionError::UnknownServerError),
        Ok(_) => panic!("an HTTP failure must not produce a transaction"),
    }
}

#[test]
fn network_failure_is_an_internal_server_error() {
    match get_swap_instructions(SwapFetchOutcome::NetworkFailure) {
        Err(e) => assert_eq!(e, ActionError::InternalServerError),
        Ok(_) => panic!("a network failure must not decode"),
    }
}

#[test]
fn swap_fragments_keep_the_declared_order() {
    let ctx = prepare_pay(ACCOUNT, RECEIVER, MINT).unwrap();
    let t = pay(ctx, SwapFetchOutcome::Response(minimal_response())).unwrap();
    let v = &t.transaction.instructions;
    // creation, compute budget, swap, cleanup
    assert_eq!(v.len(), 4);
    assert_eq!(v[0].data, vec![1u8]);
    assert_eq!(v[1].data, vec![1u8]);
    assert_eq!(v[2].data, b"Man".to_vec());
    assert_eq!(v[3].data, Vec::<u8>::new());
    assert_eq!(t.message, Some("Payment successfully sent".to_string()));
}

#[test]
fn prepare_pay_rejects_each_malformed_address_distinctly() {
    let cases = [
        (("x", RECEIVER, MINT), ActionError::InvalidAccountPublicKey),
        ((ACCOUNT, "x", MINT), ActionError::InvalidReceiverPublicKey),
        ((ACCOUNT, RECEIVER, "x"), ActionError::InvalidTokenMintPublicKey),
    ];
    for ((account, receiver, mint), expected) in cases {
        match prepare_pay(account, receiver, mint) {
            Err(e) => assert_eq!(e, expected),
            Ok(_) => panic!("a malformed address must be rejected"),
        }
    }
}

#[test]
fn prepare_pay_derives_the_receiver_send_account() {
    let ctx = prepare_pay(ACCOUNT, RECEIVER, MINT).unwrap();
    let receiver = solana_program::pubkey::Pubkey::from_str(RECEIVER).unwrap();
    let send_mint = solana_program::pubkey::Pubkey::from_str(MINT).unwrap();
    #[allow(deprecated)]
    let expected = spl_associated_token_account::get_associated_token_address(&receiver, &send_mint);
    assert_eq!(ctx.receiver_send_ata.bytes, expected.to_bytes().to_vec());
}

#[test]
fn undecodable_response_is_an_invalid_response_body() {
    let mut response = minimal_response();
    response.swap_instruction = transport_ix(MINT, "???");
    match get_swap_instructions(SwapFetchOutcome::Response(response)) {
        Err(e) => assert_eq!(e, ActionError::InvalidResponseBody),
        Ok(_) => panic!("an undecodable body must be rejected"),
    }
}

#[test]
fn unavailable_quote_is_a_quote_not_found() {
    match get_swap_instructions(SwapFetchOutcome::QuoteUnavailable) {
        Err(e) => assert_eq!(e, ActionError::QuoteNotFound),
        Ok(_) => panic!("an unavailable quote must not decode"),
    }
}

#[test]
fn unavailable_quote_halts_the_pipeline_before_assembly() {
    let ctx = prepare_pay(ACCOUNT, RECEIVER, MINT).unwrap();
    match pay(ctx, SwapFetchOutcome::QuoteUnavailable) {
        Err(e) => assert_eq!(e, ActionError::QuoteNotFound),
        Ok(_) => panic!("an unavailable quote must not produce a transaction"),
    }
}
