use tx_assembly::address::Address;
use tx_assembly::squads::{decode_create_args, encode_create_args, CreateInstructionArgs};
use tx_assembly::staking::{
    decode_stake_args, decode_unstake_args, encode_stake_args, encode_unstake_args,
    StakeInstructionArgs, UnstakeInstructionArgs,
};

fn addr(byte: u8) -> Address {
    Address { bytes: vec![byte; 32] }
}

#[test]
fn create_args_layout_matches_borsh() {
    let create_key = [7u8; 32];
    let member_a = [1u8; 32];
    let member_b = [2u8; 32];
    let meta = "{\"name\":\"Team\"}".to_string();
    let args = CreateInstructionArgs {
        threshold: 1,
        create_key: addr(7),
        members: vec![addr(1), addr(2)],
        meta: meta.clone().into_bytes(),
    };
    let encoded = encode_create_args(&args).unwrap();
    let expected =
        borsh::to_vec(&(1u16, create_key, vec![member_a, member_b], meta)).unwrap();
    assert_eq!(encoded, expected);
}

#[test]
fn create_args_round_trip() {
    let args = CreateInstructionArgs {
        threshold: 3,
        create_key: addr(9),
        members: vec![addr(4)],
        meta: b"{\"name\":\"x\",\"description\":\"y\",\"image\":\"\"}".to_vec(),
    };
    let encoded = encode_create_args(&args).unwrap();
    let decoded = decode_create_args(&encoded).unwrap();
    assert_eq!(decoded.threshold, 3);
    assert_eq!(decoded.create_key.bytes, vec![9u8; 32]);
    assert_eq!(decoded.members.len(), 1);
    assert_eq!(decoded.members[0].bytes, vec![4u8; 32]);
    assert_eq!(decoded.meta, args.meta);
}

#[test]
fn create_args_decode_rejects_truncated_input() {
    let args = CreateInstructionArgs {
        threshold: 1,
        create_key: addr(5),
        members: vec![],
        meta: b"{}".to_vec(),
    };
    let mut encoded = encode_create_args(&args).unwrap();
    encoded.pop();
    assert!(decode_create_args(&encoded).is_err());
    assert!(decode_create_args(&[]).is_err());
}

#[test]
fn stake_args_layout_matches_bincode() {
    let args = StakeInstructionArgs { amount: 123_456_789_000 };
    let encoded = encode_stake_args(&args);
    let expected = bincode::serialize(&123_456_789_000u64).unwrap();
    assert_eq!(encoded, expected);
    assert_eq!(encoded.len(), 8);
}

#[test]
fn stake_args_round_trip() {
    let args = StakeInstructionArgs { amount: u64::MAX - 17 };
    let encoded = encode_stake_args(&args);
    let decoded = decode_stake_args(&encoded).unwrap();
    assert_eq!(decoded, args);
    assert!(decode_stake_args(&encoded[..7]).is_err());
}

#[test]
fn unstake_args_layout_matches_bincode() {
    let value = 12_345_678_901_234_567_890_123_456u128;
    let args = UnstakeInstructionArgs { stake_shares_scaled: value };
    let encoded = encode_unstake_args(&args);
    let expected = bincode::serialize(&value).unwrap();
    assert_eq!(encoded, expected);
    assert_eq!(encoded.len(), 16);
}

#[test]
fn unstake_args_round_trip() {
    let args = UnstakeInstructionArgs { stake_shares_scaled: u128::MAX - 5 };
    let encoded = encode_unstake_args(&args);
    let decoded = decode_unstake_args(&encoded).unwrap();
    assert_eq!(decoded, args);
    assert!(decode_unstake_args(&encoded[..15]).is_err());
}
