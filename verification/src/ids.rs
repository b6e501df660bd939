//! The fixed ledger addresses that the assembled calls target.
//!
//! Each address is the 32-byte value of a well-known base58 account string;
//! a spec function gives the exact bytes and an executable function builds
//! the address value.

use vstd::prelude::*;

use crate::address::Address;

verus! {

/// The bytes of `SMPLecH534NA9acpos4G6x7uf3LWbCAwZQE9e8ZekMu`,
/// the multisig program that owns created squads.
pub open spec fn spec_squads_program_id() -> Seq<u8> {
    seq![6, 126, 145, 221, 206, 113, 192, 199, 95, 63, 255, 186, 30, 214, 44, 175, 64, 4, 111, 29, 216, 195, 82, 136, 59, 16, 168, 125, 183, 58, 217, 48]
}

/// Builds the multisig program that owns created squads address.
pub fn squads_program_id() -> (r: Address)
    ensures
        r@ == spec_squads_program_id(),
        r.wf(),
{
    let bytes: Vec<u8> = vec![6, 126, 145, 221, 206, 113, 192, 199, 95, 63, 255, 186, 30, 214, 44, 175, 64, 4, 111, 29, 216, 195, 82, 136, 59, 16, 168, 125, 183, 58, 217, 48];
    proof {
        assert(bytes@ =~= spec_squads_program_id());
    }
    Address::from_bytes(bytes)
}

/// The bytes of `KMNo3nJsBXfcpJTVhZcXLW7RmTwTt4GVFE7suUBo9sS`,
/// the KMNO token mint.
pub open spec fn spec_kmno_mint_address() -> Seq<u8> {
    seq![4, 179, 126, 86, 99, 235, 233, 21, 216, 16, 178, 15, 10, 14, 62, 13, 45, 70, 29, 30, 250, 178, 214, 0, 246, 163, 107, 20, 30, 29, 196, 61]
}

/// Builds the KMNO token mint address.
pub fn kmno_mint_address() -> (r: Address)
    ensures
        r@ == spec_kmno_mint_address(),
        r.wf(),
{
    let bytes: Vec<u8> = vec![4, 179, 126, 86, 99, 235, 233, 21, 216, 16, 178, 15, 10, 14, 62, 13, 45, 70, 29, 30, 250, 178, 214, 0, 246, 163, 107, 20, 30, 29, 196, 61];
    proof {
        assert(bytes@ =~= spec_kmno_mint_address());
    }
    Address::from_bytes(bytes)
}

/// The bytes of `FarmsPZpWu9i7Kky8tPN37rs2TpmMrAZrC7S7vJa91Hr`,
/// the staking program targeted by stake and unstake calls.
pub open spec fn spec_kmno_staking_program_id() -> Seq<u8> {
    seq![216, 176, 16, 23, 99, 211, 229, 31, 18, 110, 97, 86, 222, 133, 222, 140, 97, 48, 89, 184, 68, 104, 208, 218, 63, 232, 162, 162, 37, 28, 199, 1]
}

/// Builds the staking program targeted by stake and unstake calls address.
pub fn kmno_staking_program_id() -> (r: Address)
    ensures
        r@ == spec_kmno_staking_program_id(),
        r.wf(),
{
    let bytes: Vec<u8> = vec![216, 176, 16, 23, 99, 211, 229, 31, 18, 110, 97, 86, 222, 133, 222, 140, 97, 48, 89, 184, 68, 104, 208, 218, 63, 232, 162, 162, 37, 28, 199, 1];
    proof {
        assert(bytes@ =~= spec_kmno_staking_program_id());
    }
    Address::from_bytes(bytes)
}

/// The bytes of `2sFZDpBn4sA42uNbAD6QzQ98rPSmqnPyksYe6SJKVvay`,
/// the farm-state account of the staking program.
pub open spec fn spec_kmno_farm_state() -> Seq<u8> {
    seq![27, 187, 47, 116, 170, 62, 25, 246, 167, 209, 151, 180, 2, 17, 126, 128, 80, 162, 162, 122, 148, 28, 230, 62, 189, 82, 202, 11, 46, 122, 51, 6]
}

/// Builds the farm-state account of the staking program address.
pub fn kmno_farm_state() -> (r: Address)
    ensures
        r@ == spec_kmno_farm_state(),
        r.wf(),
{
    let bytes: Vec<u8> = vec![27, 187, 47, 116, 170, 62, 25, 246, 167, 209, 151, 180, 2, 17, 126, 128, 80, 162, 162, 122, 148, 28, 230, 62, 189, 82, 202, 11, 46, 122, 51, 6];
    proof {
        assert(bytes@ =~= spec_kmno_farm_state());
    }
    Address::from_bytes(bytes)
}

/// The bytes of `5xpGE38rm4ZqAgQiuocqkw6cM6Cwrwvx6BVJk6i2oKhv`,
/// the farm vault that receives staked tokens.
pub open spec fn spec_kmno_farm_vault() -> Seq<u8> {
    seq![73, 187, 33, 207, 241, 177, 123, 193, 235, 177, 198, 30, 61, 26, 247, 14, 251, 62, 232, 75, 28, 221, 233, 170, 185, 61, 255, 227, 160, 138, 88, 109]
}

/// Builds the farm vault that receives staked tokens address.
pub fn kmno_farm_vault() -> (r: Address)
    ensures
        r@ == spec_kmno_farm_vault(),
        r.wf(),
{
    let bytes: Vec<u8> = vec![73, 187, 33, 207, 241, 177, 123, 193, 235, 177, 198, 30, 61, 26, 247, 14, 251, 62, 232, 75, 28, 221, 233, 170, 185, 61, 255, 227, 160, 138, 88, 109];
    proof {
        assert(bytes@ =~= spec_kmno_farm_vault());
    }
    Address::from_bytes(bytes)
}

/// The bytes of `Ec6MuWtpvFcVyMsp7vipKCg1CMkKrWHZpWPdnJF16G57`,
/// the authority over the farm vault.
pub open spec fn spec_kmno_farm_vault_authority() -> Seq<u8> {
    seq![202, 37, 81, 197, 255, 42, 50, 231, 217, 247, 73, 220, 21, 227, 110, 192, 223, 81, 136, 172, 221, 227, 211, 132, 147, 165, 79, 191, 140, 85, 230, 82]
}

/// Builds the authority over the farm vault address.
pub fn kmno_farm_vault_authority() -> (r: Address)
    ensures
        r@ == spec_kmno_farm_vault_authority(),
        r.wf(),
{
    let bytes: Vec<u8> = vec![202, 37, 81, 197, 255, 42, 50, 231, 217, 247, 73, 220, 21, 227, 110, 192, 223, 81, 136, 172, 221, 227, 211, 132, 147, 165, 79, 191, 140, 85, 230, 82];
    proof {
        assert(bytes@ =~= spec_kmno_farm_vault_authority());
    }
    Address::from_bytes(bytes)
}

/// The bytes of `FarmsPZpWu9i7Kky8tPN37rs2TpmMrAZrC7S7vJa91Hr`,
/// the price-oracle account handed to the staking program.
pub open spec fn spec_kmno_scope_prices() -> Seq<u8> {
    seq![216, 176, 16, 23, 99, 211, 229, 31, 18, 110, 97, 86, 222, 133, 222, 140, 97, 48, 89, 184, 68, 104, 208, 218, 63, 232, 162, 162, 37, 28, 199, 1]
}

/// Builds the price-oracle account handed to the staking program address.
pub fn kmno_scope_prices() -> (r: Address)
    ensures
        r@ == spec_kmno_scope_prices(),
        r.wf(),
{
    let bytes: Vec<u8> = vec![216, 176, 16, 23, 99, 211, 229, 31, 18, 110, 97, 86, 222, 133, 222, 140, 97, 48, 89, 184, 68, 104, 208, 218, 63, 232, 162, 162, 37, 28, 199, 1];
    proof {
        assert(bytes@ =~= spec_kmno_scope_prices());
    }
    Address::from_bytes(bytes)
}

/// The bytes of `SysvarRent111111111111111111111111111111111`,
/// the rent sysvar account.
pub open spec fn spec_rent_sysvar_id() -> Seq<u8> {
    seq![6, 167, 213, 23, 25, 44, 92, 81, 33, 140, 201, 76, 61, 74, 241, 127, 88, 218, 238, 8, 155, 161, 253, 68, 227, 219, 217, 138, 0, 0, 0, 0]
}

/// Builds the rent sysvar account address.
pub fn rent_sysvar_id() -> (r: Address)
    ensures
        r@ == spec_rent_sysvar_id(),
        r.wf(),
{
    let bytes: Vec<u8> = vec![6, 167, 213, 23, 25, 44, 92, 81, 33, 140, 201, 76, 61, 74, 241, 127, 88, 218, 238, 8, 155, 161, 253, 68, 227, 219, 217, 138, 0, 0, 0, 0];
    proof {
        assert(bytes@ =~= spec_rent_sysvar_id());
    }
    Address::from_bytes(bytes)
}

/// The bytes of `11111111111111111111111111111111`,
/// the system program.
pub open spec fn spec_system_program_id() -> Seq<u8> {
    seq![0, 0, 0, 0, 0, 0, 0, 0, 0, 0, 0, 0, 0, 0, 0, 0, 0, 0, 0, 0, 0, 0, 0, 0, 0, 0, 0, 0, 0, 0, 0, 0]
}

/// Builds the system program address.
pub fn system_program_id() -> (r: Address)
    ensures
        r@ == spec_system_program_id(),
        r.wf(),
{
    let bytes: Vec<u8> = vec![0, 0, 0, 0, 0, 0, 0, 0, 0, 0, 0, 0, 0, 0, 0, 0, 0, 0, 0, 0, 0, 0, 0, 0, 0, 0, 0, 0, 0, 0, 0, 0];
    proof {
        assert(bytes@ =~= spec_system_program_id());
    }
    Address::from_bytes(bytes)
}

/// The bytes of `TokenkegQfeZyiNwAJbNbGKPFXCWuBvf9Ss623VQ5DA`,
/// the token program.
pub open spec fn spec_token_program_id() -> Seq<u8> {
    seq![6, 221, 246, 225, 215, 101, 161, 147, 217, 203, 225, 70, 206, 235, 121, 172, 28, 180, 133, 237, 95, 91, 55, 145, 58, 140, 245, 133, 126, 255, 0, 169]
}

/// Builds the token program address.
pub fn token_program_id() -> (r: Address)
    ensures
        r@ == spec_token_program_id(),
        r.wf(),
{
    let bytes: Vec<u8> = vec![6, 221, 246, 225, 215, 101, 161, 147, 217, 203, 225, 70, 206, 235, 121, 172, 28, 180, 133, 237, 95, 91, 55, 145, 58, 140, 245, 133, 126, 255, 0, 169];
    proof {
        assert(bytes@ =~= spec_token_program_id());
    }
    Address::from_bytes(bytes)
}

/// The bytes of `ATokenGPvbdGVxr1b2hvZbsiqW5xWH25efTNsLJA8knL`,
/// the associated-token-account program.
pub open spec fn spec_associated_token_program_id() -> Seq<u8> {
    seq![140, 151, 37, 143, 78, 36, 137, 241, 187, 61, 16, 41, 20, 142, 13, 131, 11, 90, 19, 153, 218, 255, 16, 132, 4, 142, 123, 216, 219, 233, 248, 89]
}

/// Builds the associated-token-account program address.
pub fn associated_token_program_id() -> (r: Address)
    ensures
        r@ == spec_associated_token_program_id(),
        r.wf(),
{
    let bytes: Vec<u8> = vec![140, 151, 37, 143, 78, 36, 137, 241, 187, 61, 16, 41, 20, 142, 13, 131, 11, 90, 19, 153, 218, 255, 16, 132, 4, 142, 123, 216, 219, 233, 248, 89];
    proof {
        assert(bytes@ =~= spec_associated_token_program_id());
    }
    Address::from_bytes(bytes)
}

/// The bytes of `SENDdRQtYMWaQrBroBrJ2Q53fgVuq95CV9UPGEvpCxa`,
/// the SEND token mint.
pub open spec fn spec_send_mint_address() -> Seq<u8> {
    seq![6, 118, 162, 13, 0, 205, 245, 76, 96, 194, 164, 10, 13, 187, 254, 217, 213, 152, 233, 201, 64, 78, 215, 74, 47, 202, 149, 6, 106, 161, 175, 171]
}

/// Builds the SEND token mint address.
pub fn send_mint_address() -> (r: Address)
    ensures
        r@ == spec_send_mint_address(),
        r.wf(),
{
    let bytes: Vec<u8> = vec![6, 118, 162, 13, 0, 205, 245, 76, 96, 194, 164, 10, 13, 187, 254, 217, 213, 152, 233, 201, 64, 78, 215, 74, 47, 202, 149, 6, 106, 161, 175, 171];
    proof {
        assert(bytes@ =~= spec_send_mint_address());
    }
    Address::from_bytes(bytes)
}

} // verus!
