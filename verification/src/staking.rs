//! The staking flow.
//!
//! Stake, unstake and withdrawal calls target the staking program. Their
//! arguments travel in the compact binary layout: a bare little-endian
//! integer with no framing. A stake must touch the caller's per-user state
//! account, which exists only after a one-time initialization call: the
//! ledger is probed for that account and the initialization instruction is
//! prepended exactly when the probe reports it missing. A probe that failed
//! outright is surfaced as its own error, never treated as either existence
//! state, because guessing wrong produces an invalid or wasteful transaction.

use vstd::bytes::lemma_auto_spec_u128_to_from_le_bytes;
use vstd::bytes::lemma_auto_spec_u64_to_from_le_bytes;
use vstd::bytes::spec_u128_from_le_bytes;
use vstd::bytes::spec_u128_to_le_bytes;
use vstd::bytes::spec_u64_from_le_bytes;
use vstd::bytes::spec_u64_to_le_bytes;
use vstd::bytes::u128_from_le_bytes;
use vstd::bytes::u64_from_le_bytes;
use vstd::prelude::*;

use crate::address::clone_bytes;
use crate::address::find_program_address;
use crate::address::seeds_view;
use crate::address::spec_find_pda;
use crate::address::Address;
use crate::address::Derived;
use crate::address::DerivedView;
use crate::address::parsed_address;
use crate::codec::push_u128_le;
use crate::codec::push_u64_le;
use crate::digest::spec_discriminant;
use crate::error::ActionError;
use crate::ids::kmno_farm_state;
use crate::ids::kmno_staking_program_id;
use crate::ids::rent_sysvar_id;
use crate::ids::spec_kmno_farm_state;
use crate::ids::spec_kmno_farm_vault;
use crate::ids::spec_kmno_farm_vault_authority;
use crate::ids::spec_kmno_mint_address;
use crate::ids::spec_kmno_scope_prices;
use crate::ids::spec_kmno_staking_program_id;
use crate::ids::spec_rent_sysvar_id;
use crate::ids::spec_system_program_id;
use crate::ids::spec_token_program_id;
use crate::ids::kmno_farm_vault;
use crate::ids::kmno_farm_vault_authority;
use crate::ids::kmno_mint_address;
use crate::ids::kmno_scope_prices;
use crate::ids::system_program_id;
use crate::ids::token_program_id;
use crate::instruction::build_instruction;
use crate::instruction::readonly;
use crate::instruction::writable;
use crate::instruction::AccountRole;
use crate::instruction::Instruction;
use crate::instruction::InstructionView;

verus! {

/// The argument record of the stake call: the amount to stake, in the
/// token's smallest units.
#[derive(Clone, Copy, Debug, PartialEq, Eq, Structural)]
pub struct StakeInstructionArgs {
    pub amount: u64,
}

/// The argument record of the unstake call: the share amount to release,
/// scaled to the program's fixed-point denomination.
#[derive(Clone, Copy, Debug, PartialEq, Eq, Structural)]
pub struct UnstakeInstructionArgs {
    pub stake_shares_scaled: u128,
}

/// Serializes a stake argument record in the compact layout: eight
/// little-endian bytes. Byte-for-byte deterministic, with no error path.
pub fn encode_stake_args(args: &StakeInstructionArgs) -> (r: Vec<u8>)
    ensures
        r@ == spec_u64_to_le_bytes(args.amount),
{
    let mut out: Vec<u8> = Vec::new();
    push_u64_le(&mut out, args.amount);
    proof {
        assert(out@ =~= spec_u64_to_le_bytes(args.amount));
    }
    out
}

/// Deserializes the compact layout of a stake argument record: exactly
/// eight little-endian bytes.
pub fn decode_stake_args(data: &[u8]) -> (r: Result<StakeInstructionArgs, ActionError>)
    ensures
        r matches Ok(args) ==> data@.len() == 8 && args.amount == spec_u64_from_le_bytes(data@),
        r matches Err(e) ==> e == ActionError::EncodingFailure && data@.len() != 8,
{
    if data.len() != 8 {
        return Err(ActionError::EncodingFailure);
    }
    Ok(StakeInstructionArgs { amount: u64_from_le_bytes(data) })
}

/// Serializes an unstake argument record in the compact layout: sixteen
/// little-endian bytes. Byte-for-byte deterministic, with no error path.
pub fn encode_unstake_args(args: &UnstakeInstructionArgs) -> (r: Vec<u8>)
    ensures
        r@ == spec_u128_to_le_bytes(args.stake_shares_scaled),
{
    let mut out: Vec<u8> = Vec::new();
    push_u128_le(&mut out, args.stake_shares_scaled);
    proof {
        assert(out@ =~= spec_u128_to_le_bytes(args.stake_shares_scaled));
    }
    out
}

/// Deserializes the compact layout of an unstake argument record: exactly
/// sixteen little-endian bytes.
pub fn decode_unstake_args(data: &[u8]) -> (r: Result<UnstakeInstructionArgs, ActionError>)
    ensures
        r matches Ok(args) ==> data@.len() == 16 && args.stake_shares_scaled
            == spec_u128_from_le_bytes(data@),
        r matches Err(e) ==> e == ActionError::EncodingFailure && data@.len() != 16,
{
    if data.len() != 16 {
        return Err(ActionError::EncodingFailure);
    }
    Ok(UnstakeInstructionArgs { stake_shares_scaled: u128_from_le_bytes(data) })
}

/// The compact codec round-trips: decoding the eight encoded bytes of any
/// stake record recovers exactly that record.
pub proof fn lemma_stake_args_round_trip(args: StakeInstructionArgs)
    ensures
        spec_u64_to_le_bytes(args.amount).len() == 8,
        spec_u64_from_le_bytes(spec_u64_to_le_bytes(args.amount)) == args.amount,
{
    lemma_auto_spec_u64_to_from_le_bytes();
    assert(spec_u64_to_le_bytes(args.amount).len() == 8);
}

/// The compact codec round-trips: decoding the sixteen encoded bytes of any
/// unstake record recovers exactly that record.
pub proof fn lemma_unstake_args_round_trip(args: UnstakeInstructionArgs)
    ensures
        spec_u128_to_le_bytes(args.stake_shares_scaled).len() == 16,
        spec_u128_from_le_bytes(spec_u128_to_le_bytes(args.stake_shares_scaled))
            == args.stake_shares_scaled,
{
    lemma_auto_spec_u128_to_from_le_bytes();
    assert(spec_u128_to_le_bytes(args.stake_shares_scaled).len() == 16);
}

/// The namespaced name of the user-state initialization call,
/// `global:initialize_user`.
pub open spec fn spec_initialize_user_call_name() -> Seq<u8> {
    seq![103, 108, 111, 98, 97, 108, 58, 105, 110, 105, 116, 105, 97, 108, 105, 122, 101, 95, 117, 115, 101, 114]
}

/// The namespaced name of the stake call, `global:stake`.
pub open spec fn spec_stake_call_name() -> Seq<u8> {
    seq![103, 108, 111, 98, 97, 108, 58, 115, 116, 97, 107, 101]
}

/// The namespaced name of the unstake call, `global:unstake`.
pub open spec fn spec_unstake_call_name() -> Seq<u8> {
    seq![103, 108, 111, 98, 97, 108, 58, 117, 110, 115, 116, 97, 107, 101]
}

/// The namespaced name of the withdrawal call,
/// `global:withdraw_unstaked_deposits`.
pub open spec fn spec_withdraw_call_name() -> Seq<u8> {
    seq![103, 108, 111, 98, 97, 108, 58, 119, 105, 116, 104, 100, 114, 97, 119, 95, 117, 110, 115, 116, 97, 107, 101, 100, 95, 100, 101, 112, 111, 115, 105, 116, 115]
}

/// The seed list of a caller's user-state account: the bytes of `user`, the
/// farm state, and the caller's address.
pub open spec fn spec_user_state_seeds(account: Seq<u8>) -> Seq<Seq<u8>> {
    seq![seq![117u8, 115, 101, 114], spec_kmno_farm_state(), account]
}

/// Derives the caller's user-state account of the staking program.
/// Deterministic: recomputed rather than cached.
pub fn user_state_address(account_pubkey: &Address) -> (r: Derived)
    requires
        account_pubkey.wf(),
    ensures
        r@ == spec_find_pda(
            spec_user_state_seeds(account_pubkey@),
            spec_kmno_staking_program_id(),
            255,
        ),
        r matches Derived::Found(a, _) ==> a.wf(),
{
    let mut seeds: Vec<Vec<u8>> = Vec::new();
    let user_seed: Vec<u8> = vec![117, 115, 101, 114];
    seeds.push(user_seed);
    let farm_state = kmno_farm_state();
    seeds.push(farm_state.bytes);
    seeds.push(clone_bytes(&account_pubkey.bytes));
    let program = kmno_staking_program_id();
    proof {
        assert(seeds_view(seeds@) =~= spec_user_state_seeds(account_pubkey@));
    }
    find_program_address(&seeds, &program)
}

/// The initialization instruction: it creates the caller's user-state
/// account. The payload is the bare discriminant of
/// `global:initialize_user`; the caller appears four times at the head of
/// the account list, in the roles the program's schema declares.
pub open spec fn spec_initializer_user_instruction(
    account: Seq<u8>,
    user_state: Seq<u8>,
) -> InstructionView {
    InstructionView {
        program_id: spec_kmno_staking_program_id(),
        accounts: seq![
            writable(account, true),
            writable(account, true),
            readonly(account, false),
            readonly(account, false),
            writable(user_state, false),
            writable(spec_kmno_farm_state(), false),
            readonly(spec_system_program_id(), false),
            readonly(spec_rent_sysvar_id(), false),
        ],
        data: spec_discriminant(spec_initialize_user_call_name()),
    }
}

/// Builds the one-time user-state initialization call.
pub fn initializer_user_instruction(account_pubkey: &Address, user_state: &Address) -> (r:
    Instruction)
    requires
        account_pubkey.wf(),
        user_state.wf(),
    ensures
        r@ == spec_initializer_user_instruction(account_pubkey@, user_state@),
        r.wf(),
{
    let mut accounts: Vec<AccountRole> = Vec::new();
    accounts.push(AccountRole::new(account_pubkey.clone(), true));
    accounts.push(AccountRole::new(account_pubkey.clone(), true));
    accounts.push(AccountRole::new_readonly(account_pubkey.clone(), false));
    accounts.push(AccountRole::new_readonly(account_pubkey.clone(), false));
    accounts.push(AccountRole::new(user_state.clone(), false));
    accounts.push(AccountRole::new(kmno_farm_state(), false));
    accounts.push(AccountRole::new_readonly(system_program_id(), false));
    accounts.push(AccountRole::new_readonly(rent_sysvar_id(), false));
    let name: Vec<u8> = vec![
        103,
        108,
        111,
        98,
        97,
        108,
        58,
        105,
        110,
        105,
        116,
        105,
        97,
        108,
        105,
        122,
        101,
        95,
        117,
        115,
        101,
        114,
    ];
    proof {
        assert(name@ =~= spec_initialize_user_call_name());
    }
    let args: Vec<u8> = Vec::new();
    let r = build_instruction(kmno_staking_program_id(), accounts, name.as_slice(), args.as_slice());
    proof {
        assert(r@.data =~= spec_discriminant(spec_initialize_user_call_name()));
        assert(r@ =~= spec_initializer_user_instruction(account_pubkey@, user_state@));
    }
    r
}

/// The largest whole-token amount whose stake argument, scaled by the
/// token's million smallest units, still fits 64 bits.
pub open spec fn spec_max_stake_amount() -> u64 {
    18446744073709
}

/// The stake instruction: the caller signs, the user state, farm state,
/// farm vault and the caller's token account are written, and the payload
/// carries the scaled amount in the compact layout.
pub open spec fn spec_stake_instruction(
    account: Seq<u8>,
    user_state: Seq<u8>,
    kmno_ata: Seq<u8>,
    amount: u64,
) -> InstructionView {
    InstructionView {
        program_id: spec_kmno_staking_program_id(),
        accounts: seq![
            readonly(account, true),
            writable(user_state, false),
            writable(spec_kmno_farm_state(), false),
            writable(spec_kmno_farm_vault(), false),
            writable(kmno_ata, false),
            readonly(spec_kmno_mint_address(), false),
            readonly(spec_kmno_scope_prices(), false),
            readonly(spec_token_program_id(), false),
        ],
        data: spec_discriminant(spec_stake_call_name()) + spec_u64_to_le_bytes(amount),
    }
}

/// Builds the stake call for a whole-token amount: the amount is scaled to
/// the token's million smallest units, and an amount too large for that
/// scaling is refused as invalid input. A requested amount of zero is not
/// refused: no lower bound is checked at this layer.
pub fn build_stake_instruction(
    account_pubkey: &Address,
    user_state: &Address,
    kmno_ata: &Address,
    user_amount: u64,
) -> (r: Result<Instruction, ActionError>)
    requires
        account_pubkey.wf(),
        user_state.wf(),
        kmno_ata.wf(),
    ensures
        r matches Ok(ix) ==> user_amount <= spec_max_stake_amount() && ix@ == spec_stake_instruction(
            account_pubkey@,
            user_state@,
            kmno_ata@,
            (user_amount * 1000000) as u64,
        ) && ix.wf(),
        r matches Err(e) ==> e == ActionError::InvalidAmount && user_amount
            > spec_max_stake_amount(),
{
    if user_amount > 18446744073709 {
        return Err(ActionError::InvalidAmount);
    }
    let amount: u64 = user_amount * 1000000;
    let args = StakeInstructionArgs { amount };
    let encoded = encode_stake_args(&args);
    let mut accounts: Vec<AccountRole> = Vec::new();
    accounts.push(AccountRole::new_readonly(account_pubkey.clone(), true));
    accounts.push(AccountRole::new(user_state.clone(), false));
    accounts.push(AccountRole::new(kmno_farm_state(), false));
    accounts.push(AccountRole::new(kmno_farm_vault(), false));
    accounts.push(AccountRole::new(kmno_ata.clone(), false));
    accounts.push(AccountRole::new_readonly(kmno_mint_address(), false));
    accounts.push(AccountRole::new_readonly(kmno_scope_prices(), false));
    accounts.push(AccountRole::new_readonly(token_program_id(), false));
    let name: Vec<u8> = vec![103, 108, 111, 98, 97, 108, 58, 115, 116, 97, 107, 101];
    proof {
        assert(name@ =~= spec_stake_call_name());
    }
    let ix = build_instruction(
        kmno_staking_program_id(),
        accounts,
        name.as_slice(),
        encoded.as_slice(),
    );
    proof {
        assert(ix@ =~= spec_stake_instruction(
            account_pubkey@,
            user_state@,
            kmno_ata@,
            (user_amount * 1000000) as u64,
        ));
    }
    Ok(ix)
}

/// The largest whole-token amount whose unstake argument, scaled by the
/// program's fixed-point factor of ten to the twenty-fourth, still fits
/// 128 bits.
pub open spec fn spec_max_unstake_amount() -> u64 {
    340282366920938
}

/// The unstake instruction: the caller signs and is written, together with
/// the user state and farm state; the payload carries the scaled share
/// amount in the compact layout.
pub open spec fn spec_unstake_instruction_view(
    account: Seq<u8>,
    user_state: Seq<u8>,
    stake_shares_scaled: u128,
) -> InstructionView {
    InstructionView {
        program_id: spec_kmno_staking_program_id(),
        accounts: seq![
            writable(account, true),
            writable(user_state, false),
            writable(spec_kmno_farm_state(), false),
            readonly(spec_kmno_scope_prices(), false),
        ],
        data: spec_discriminant(spec_unstake_call_name()) + spec_u128_to_le_bytes(
            stake_shares_scaled,
        ),
    }
}

/// Builds the unstake call for a whole-token amount: the amount is scaled
/// by the program's fixed-point factor of ten to the twenty-fourth, and an
/// amount too large for that scaling is refused as invalid input.
pub fn unstake_instruction(
    account_pubkey: &Address,
    user_state: &Address,
    user_amount: u64,
) -> (r: Result<Instruction, ActionError>)
    requires
        account_pubkey.wf(),
        user_state.wf(),
    ensures
        r matches Ok(ix) ==> user_amount <= spec_max_unstake_amount() && ix@
            == spec_unstake_instruction_view(
            account_pubkey@,
            user_state@,
            (user_amount * 1000000000000000000000000) as u128,
        ) && ix.wf(),
        r matches Err(e) ==> e == ActionError::InvalidAmount && user_amount
            > spec_max_unstake_amount(),
{
    if user_amount > 340282366920938 {
        return Err(ActionError::InvalidAmount);
    }
    let stake_shares_scaled: u128 = (user_amount as u128) * 1000000000000000000000000;
    let args = UnstakeInstructionArgs { stake_shares_scaled };
    let encoded = encode_unstake_args(&args);
    let mut accounts: Vec<AccountRole> = Vec::new();
    accounts.push(AccountRole::new(account_pubkey.clone(), true));
    accounts.push(AccountRole::new(user_state.clone(), false));
    accounts.push(AccountRole::new(kmno_farm_state(), false));
    accounts.push(AccountRole::new_readonly(kmno_scope_prices(), false));
    let name: Vec<u8> = vec![103, 108, 111, 98, 97, 108, 58, 117, 110, 115, 116, 97, 107, 101];
    proof {
        assert(name@ =~= spec_unstake_call_name());
    }
    let ix = build_instruction(
        kmno_staking_program_id(),
        accounts,
        name.as_slice(),
        encoded.as_slice(),
    );
    proof {
        assert(ix@ =~= spec_unstake_instruction_view(
            account_pubkey@,
            user_state@,
            (user_amount * 1000000000000000000000000) as u128,
        ));
    }
    Ok(ix)
}

/// The withdrawal instruction: it moves unstaked deposits back to the
/// caller's token account. The payload is the bare discriminant of
/// `global:withdraw_unstaked_deposits`.
pub open spec fn spec_withdraw_instruction(
    account: Seq<u8>,
    user_state: Seq<u8>,
    kmno_ata: Seq<u8>,
) -> InstructionView {
    InstructionView {
        program_id: spec_kmno_staking_program_id(),
        accounts: seq![
            writable(account, true),
            writable(user_state, false),
            writable(spec_kmno_farm_state(), false),
            writable(kmno_ata, false),
            writable(spec_kmno_farm_vault(), false),
            readonly(spec_kmno_farm_vault_authority(), false),
            readonly(spec_token_program_id(), false),
        ],
        data: spec_discriminant(spec_withdraw_call_name()),
    }
}

/// Builds the withdrawal call.
fn build_withdraw_instruction(
    account_pubkey: &Address,
    user_state: &Address,
    kmno_ata: &Address,
) -> (r: Instruction)
    requires
        account_pubkey.wf(),
        user_state.wf(),
        kmno_ata.wf(),
    ensures
        r@ == spec_withdraw_instruction(account_pubkey@, user_state@, kmno_ata@),
        r.wf(),
{
    let mut accounts: Vec<AccountRole> = Vec::new();
    accounts.push(AccountRole::new(account_pubkey.clone(), true));
    accounts.push(AccountRole::new(user_state.clone(), false));
    accounts.push(AccountRole::new(kmno_farm_state(), false));
    accounts.push(AccountRole::new(kmno_ata.clone(), false));
    accounts.push(AccountRole::new(kmno_farm_vault(), false));
    accounts.push(AccountRole::new_readonly(kmno_farm_vault_authority(), false));
    accounts.push(AccountRole::new_readonly(token_program_id(), false));
    let name: Vec<u8> = vec![
        103,
        108,
        111,
        98,
        97,
        108,
        58,
        119,
        105,
        116,
        104,
        100,
        114,
        97,
        119,
        95,
        117,
        110,
        115,
        116,
        97,
        107,
        101,
        100,
        95,
        100,
        101,
        112,
        111,
        115,
        105,
        116,
        115,
    ];
    proof {
        assert(name@ =~= spec_withdraw_call_name());
    }
    let args: Vec<u8> = Vec::new();
    let r = build_instruction(kmno_staking_program_id(), accounts, name.as_slice(), args.as_slice());
    proof {
        assert(r@.data =~= spec_discriminant(spec_withdraw_call_name()));
        assert(r@ =~= spec_withdraw_instruction(account_pubkey@, user_state@, kmno_ata@));
    }
    r
}

} // verus!

verus! {

/// What a read-only existence query for a derived account reported.
///
/// A failed query is its own outcome: it is never folded into either
/// existence state, so the caller can decide instead of the pipeline
/// guessing and assembling a wrong transaction.
#[derive(Clone, Copy, Debug, PartialEq, Eq, Structural)]
pub enum ProbeOutcome {
    /// The account exists; no initialization is needed.
    Exists,
    /// The account does not exist; initialization must run first.
    DoesNotExist,
    /// The query itself failed; nothing is known about the account.
    QueryFailed,
}

/// Which staking operation the caller requested.
#[derive(Clone, Copy, Debug, PartialEq, Eq, Structural)]
pub enum StakeMethod {
    Stake,
    Unstake,
}

/// The instruction list of a stake request: the stake call, preceded by the
/// one-time initialization call exactly when `init_required` holds.
pub open spec fn spec_stake_ix_list(
    account: Seq<u8>,
    user_state: Seq<u8>,
    kmno_ata: Seq<u8>,
    amount: u64,
    init_required: bool,
) -> Seq<InstructionView> {
    if init_required {
        seq![
            spec_initializer_user_instruction(account, user_state),
            spec_stake_instruction(account, user_state, kmno_ata, amount),
        ]
    } else {
        seq![spec_stake_instruction(account, user_state, kmno_ata, amount)]
    }
}

/// A probe that reports the user state missing prepends exactly one
/// initialization instruction; a probe that finds it prepends none.
pub proof fn lemma_probe_controls_initialization(
    account: Seq<u8>,
    user_state: Seq<u8>,
    kmno_ata: Seq<u8>,
    amount: u64,
)
    ensures
        spec_stake_ix_list(account, user_state, kmno_ata, amount, true) == seq![
            spec_initializer_user_instruction(account, user_state),
        ] + spec_stake_ix_list(account, user_state, kmno_ata, amount, false),
        spec_stake_ix_list(account, user_state, kmno_ata, amount, false) == seq![
            spec_stake_instruction(account, user_state, kmno_ata, amount),
        ],
{
    assert(spec_stake_ix_list(account, user_state, kmno_ata, amount, true) =~= seq![
        spec_initializer_user_instruction(account, user_state),
    ] + spec_stake_ix_list(account, user_state, kmno_ata, amount, false));
}

/// The derived accounts of a staking caller both exist: the associated
/// token account and the user state were each found by the bump search.
pub open spec fn spec_staking_accounts_found(account: Seq<u8>) -> bool {
    &&& spec_find_pda(
        crate::instruction::spec_ata_seeds(
            account,
            spec_token_program_id(),
            spec_kmno_mint_address(),
        ),
        crate::ids::spec_associated_token_program_id(),
        255,
    ) is Found
    &&& spec_find_pda(spec_user_state_seeds(account), spec_kmno_staking_program_id(), 255)
        is Found
}

/// What the instruction list of a successful stake request is, given the
/// two derived accounts that the searches found.
pub open spec fn spec_stake_outputs(
    account: Seq<u8>,
    user_amount: u64,
    init_required: bool,
    v: Seq<InstructionView>,
) -> bool {
    spec_find_pda(
        crate::instruction::spec_ata_seeds(
            account,
            spec_token_program_id(),
            spec_kmno_mint_address(),
        ),
        crate::ids::spec_associated_token_program_id(),
        255,
    ) matches DerivedView::Found(kmno_ata, _) && spec_find_pda(
        spec_user_state_seeds(account),
        spec_kmno_staking_program_id(),
        255,
    ) matches DerivedView::Found(user_state, _) && v == spec_stake_ix_list(
        account,
        user_state,
        kmno_ata,
        (user_amount * 1000000) as u64,
        init_required,
    )
}

/// Builds the instruction list of a stake request: the caller's associated
/// token account and user state are derived, and the probe outcome decides
/// whether the initialization call is prepended. A failed probe fails the
/// request; it is never treated as either existence state.
pub fn stake_instruction(account_pubkey: &Address, user_amount: u64, probe: ProbeOutcome) -> (r:
    Result<Vec<Instruction>, ActionError>)
    requires
        account_pubkey.wf(),
    ensures
        r matches Ok(v) ==> {
            &&& user_amount <= spec_max_stake_amount()
            &&& probe != ProbeOutcome::QueryFailed
            &&& spec_stake_outputs(
                account_pubkey@,
                user_amount,
                probe == ProbeOutcome::DoesNotExist,
                v@.map_values(|ix: Instruction| ix@),
            )
            &&& forall|i: int| 0 <= i < v@.len() ==> (#[trigger] v@[i]).wf()
        },
        r matches Err(e) ==> {
            ||| e == ActionError::AddressDerivationFailure && !spec_staking_accounts_found(
                account_pubkey@,
            )
            ||| (e == ActionError::InvalidAmount && user_amount > spec_max_stake_amount())
            ||| (e == ActionError::LedgerQueryFailure && probe == ProbeOutcome::QueryFailed)
        },
{
    let mint = kmno_mint_address();
    let token_program = token_program_id();
    let kmno_ata = match crate::instruction::get_associated_token_address(
        account_pubkey,
        &mint,
        &token_program,
    ) {
        Derived::Found(a, _) => a,
        Derived::Exhausted => {
            return Err(ActionError::AddressDerivationFailure);
        },
    };
    let user_state = match user_state_address(account_pubkey) {
        Derived::Found(a, _) => a,
        Derived::Exhausted => {
            return Err(ActionError::AddressDerivationFailure);
        },
    };
    let stake_ix = match build_stake_instruction(account_pubkey, &user_state, &kmno_ata, user_amount)
        {
        Ok(ix) => ix,
        Err(e) => {
            return Err(e);
        },
    };
    let mut v: Vec<Instruction> = Vec::new();
    match probe {
        ProbeOutcome::QueryFailed => {
            return Err(ActionError::LedgerQueryFailure);
        },
        ProbeOutcome::DoesNotExist => {
            v.push(initializer_user_instruction(account_pubkey, &user_state));
        },
        ProbeOutcome::Exists => {},
    }
    v.push(stake_ix);
    proof {
        let f = |ix: Instruction| ix@;
        if probe == ProbeOutcome::DoesNotExist {
            assert(v@.map_values(f) =~= seq![
                spec_initializer_user_instruction(account_pubkey@, user_state@),
                spec_stake_instruction(
                    account_pubkey@,
                    user_state@,
                    kmno_ata@,
                    (user_amount * 1000000) as u64,
                ),
            ]);
        } else {
            assert(v@.map_values(f) =~= seq![
                spec_stake_instruction(
                    account_pubkey@,
                    user_state@,
                    kmno_ata@,
                    (user_amount * 1000000) as u64,
                ),
            ]);
        }
    }
    Ok(v)
}

/// What the instruction list of a successful withdrawal request is: the
/// unstake call, then the withdrawal call.
pub open spec fn spec_withdraw_outputs(
    account: Seq<u8>,
    user_amount: u64,
    v: Seq<InstructionView>,
) -> bool {
    spec_find_pda(
        crate::instruction::spec_ata_seeds(
            account,
            spec_token_program_id(),
            spec_kmno_mint_address(),
        ),
        crate::ids::spec_associated_token_program_id(),
        255,
    ) matches DerivedView::Found(kmno_ata, _) && spec_find_pda(
        spec_user_state_seeds(account),
        spec_kmno_staking_program_id(),
        255,
    ) matches DerivedView::Found(user_state, _) && v == seq![
        spec_unstake_instruction_view(
            account,
            user_state,
            (user_amount * 1000000000000000000000000) as u128,
        ),
        spec_withdraw_instruction(account, user_state, kmno_ata),
    ]
}

/// Builds the instruction list of a withdrawal request: the unstake call
/// for the requested amount, then the withdrawal of the unstaked deposits.
pub fn withdraw_unstaked_deposits_instruction(account_pubkey: &Address, user_amount: u64) -> (r:
    Result<Vec<Instruction>, ActionError>)
    requires
        account_pubkey.wf(),
    ensures
        r matches Ok(v) ==> {
            &&& user_amount <= spec_max_unstake_amount()
            &&& spec_withdraw_outputs(
                account_pubkey@,
                user_amount,
                v@.map_values(|ix: Instruction| ix@),
            )
            &&& forall|i: int| 0 <= i < v@.len() ==> (#[trigger] v@[i]).wf()
        },
        r matches Err(e) ==> {
            ||| e == ActionError::AddressDerivationFailure && !spec_staking_accounts_found(
                account_pubkey@,
            )
            ||| (e == ActionError::InvalidAmount && user_amount > spec_max_unstake_amount())
        },
{
    let mint = kmno_mint_address();
    let token_program = token_program_id();
    let kmno_ata = match crate::instruction::get_associated_token_address(
        account_pubkey,
        &mint,
        &token_program,
    ) {
        Derived::Found(a, _) => a,
        Derived::Exhausted => {
            return Err(ActionError::AddressDerivationFailure);
        },
    };
    let user_state = match user_state_address(account_pubkey) {
        Derived::Found(a, _) => a,
        Derived::Exhausted => {
            return Err(ActionError::AddressDerivationFailure);
        },
    };
    let unstake_ix = match unstake_instruction(account_pubkey, &user_state, user_amount) {
        Ok(ix) => ix,
        Err(e) => {
            return Err(e);
        },
    };
    let withdraw_ix = build_withdraw_instruction(account_pubkey, &user_state, &kmno_ata);
    let mut v: Vec<Instruction> = Vec::new();
    v.push(unstake_ix);
    v.push(withdraw_ix);
    proof {
        assert(v@.map_values(|ix: Instruction| ix@) =~= seq![
            spec_unstake_instruction_view(
                account_pubkey@,
                user_state@,
                (user_amount * 1000000000000000000000000) as u128,
            ),
            spec_withdraw_instruction(account_pubkey@, user_state@, kmno_ata@),
        ]);
    }
    Ok(v)
}

} // verus!

verus! {

/// The status message of a completed staking request.
pub open spec fn spec_stake_message(method: StakeMethod) -> Seq<char> {
    match method {
        StakeMethod::Stake => "STAKE successfully completed"@,
        StakeMethod::Unstake => "UNSTAKE successfully completed"@,
    }
}

/// What a successful staking transaction holds: the idempotent creation of
/// the caller's token account first, then the method's instruction list,
/// in order, and the method's status message.
pub open spec fn spec_stake_transaction(
    account: Seq<u8>,
    method: StakeMethod,
    user_amount: u64,
    probe: ProbeOutcome,
    t: crate::transaction::ActionTransaction,
) -> bool {
    spec_find_pda(
        crate::instruction::spec_ata_seeds(
            account,
            spec_token_program_id(),
            spec_kmno_mint_address(),
        ),
        crate::ids::spec_associated_token_program_id(),
        255,
    ) matches DerivedView::Found(kmno_ata, _) && spec_find_pda(
        spec_user_state_seeds(account),
        spec_kmno_staking_program_id(),
        255,
    ) matches DerivedView::Found(user_state, _) && {
        &&& t.transaction.instructions@.map_values(|ix: Instruction| ix@) == seq![
            crate::instruction::spec_create_ata_instruction(
                account,
                account,
                spec_kmno_mint_address(),
                spec_token_program_id(),
                kmno_ata,
            ),
        ] + (match method {
            StakeMethod::Stake => spec_stake_ix_list(
                account,
                user_state,
                kmno_ata,
                (user_amount * 1000000) as u64,
                probe == ProbeOutcome::DoesNotExist,
            ),
            StakeMethod::Unstake => seq![
                spec_unstake_instruction_view(
                    account,
                    user_state,
                    (user_amount * 1000000000000000000000000) as u128,
                ),
                spec_withdraw_instruction(account, user_state, kmno_ata),
            ],
        })
        &&& (method == StakeMethod::Stake ==> probe != ProbeOutcome::QueryFailed && user_amount
            <= spec_max_stake_amount())
        &&& (method == StakeMethod::Unstake ==> user_amount <= spec_max_unstake_amount())
        &&& t.message matches Some(m) && m@ == spec_stake_message(method)
    }
}

/// Assembles the whole staking transaction for the calling account: the
/// account string is parsed, the idempotent token-account creation is
/// placed first, and the requested method's calls follow it. For a stake,
/// the probe outcome decides whether the one-time initialization call
/// stands between them.
pub fn stake(account: &str, method: StakeMethod, user_amount: u64, probe: ProbeOutcome) -> (r:
    Result<crate::transaction::ActionTransaction, ActionError>)
    ensures
        r matches Ok(t) ==> parsed_address(account@) is Some && spec_stake_transaction(
            parsed_address(account@)->Some_0,
            method,
            user_amount,
            probe,
            t,
        ),
        r matches Err(e) ==> {
            ||| e == ActionError::InvalidAccountPublicKey && parsed_address(account@) is None
            ||| (e == ActionError::AddressDerivationFailure && parsed_address(account@) is Some
                && !spec_staking_accounts_found(parsed_address(account@)->Some_0))
            ||| (e == ActionError::LedgerQueryFailure && parsed_address(account@) is Some
                && method == StakeMethod::Stake && probe == ProbeOutcome::QueryFailed)
            ||| (e == ActionError::InvalidAmount && parsed_address(account@) is Some && ((method
                == StakeMethod::Stake && user_amount > spec_max_stake_amount()) || (method
                == StakeMethod::Unstake && user_amount > spec_max_unstake_amount())))
        },
{
    let account_pubkey = match crate::address::parse_address(account) {
        Some(a) => a,
        None => {
            return Err(ActionError::InvalidAccountPublicKey);
        },
    };
    let mint = kmno_mint_address();
    let token_program = token_program_id();
    let create_ata_ix = match crate::instruction::create_associated_token_account_idempotent(
        &account_pubkey,
        &account_pubkey,
        &mint,
        &token_program,
    ) {
        Ok(ix) => ix,
        Err(e) => {
            return Err(e);
        },
    };
    let user_state = match user_state_address(&account_pubkey) {
        Derived::Found(a, _) => a,
        Derived::Exhausted => {
            return Err(ActionError::AddressDerivationFailure);
        },
    };
    let kmno_ata = match crate::instruction::get_associated_token_address(
        &account_pubkey,
        &mint,
        &token_program,
    ) {
        Derived::Found(a, _) => a,
        Derived::Exhausted => {
            return Err(ActionError::AddressDerivationFailure);
        },
    };
    let mut conditional_init: Option<Instruction> = None;
    let mut primary: Vec<Instruction> = Vec::new();
    let message: String;
    match method {
        StakeMethod::Stake => {
            let stake_ix = match build_stake_instruction(
                &account_pubkey,
                &user_state,
                &kmno_ata,
                user_amount,
            ) {
                Ok(ix) => ix,
                Err(e) => {
                    return Err(e);
                },
            };
            match probe {
                ProbeOutcome::QueryFailed => {
                    return Err(ActionError::LedgerQueryFailure);
                },
                ProbeOutcome::DoesNotExist => {
                    conditional_init = Some(
                        initializer_user_instruction(&account_pubkey, &user_state),
                    );
                },
                ProbeOutcome::Exists => {},
            }
            primary.push(stake_ix);
            message = "STAKE successfully completed".to_owned();
        },
        StakeMethod::Unstake => {
            let unstake_ix = match unstake_instruction(&account_pubkey, &user_state, user_amount) {
                Ok(ix) => ix,
                Err(e) => {
                    return Err(e);
                },
            };
            let withdraw_ix = build_withdraw_instruction(&account_pubkey, &user_state, &kmno_ata);
            primary.push(unstake_ix);
            primary.push(withdraw_ix);
            message = "UNSTAKE successfully completed".to_owned();
        },
    }
    let mut prerequisite: Vec<Instruction> = Vec::new();
    prerequisite.push(create_ata_ix);
    let plan = crate::transaction::InstructionPlan {
        prerequisite,
        conditional_init,
        external_pre: None,
        external_setup: Vec::new(),
        primary,
        external_cleanup: None,
    };
    let ghost gplan = plan;
    match crate::transaction::assemble(plan, Some(message)) {
        Ok(t) => {
            proof {
                let f = |ix: Instruction| ix@;
                let order = crate::transaction::spec_plan_order(gplan);
                assert(t.transaction.instructions@ == order);
                match gplan.conditional_init {
                    Some(init) => {
                        assert(order =~= seq![gplan.prerequisite@[0], init] + gplan.primary@);
                    },
                    None => {
                        assert(order =~= seq![gplan.prerequisite@[0]] + gplan.primary@);
                    },
                }
                assert(t.transaction.instructions@.map_values(f) =~= seq![
                    gplan.prerequisite@[0]@,
                ] + (match gplan.conditional_init {
                    Some(init) => seq![init@],
                    None => Seq::<InstructionView>::empty(),
                }) + gplan.primary@.map_values(f));
                assert(gplan.primary@.map_values(f) =~= (if gplan.primary@.len() == 1 {
                    seq![gplan.primary@[0]@]
                } else {
                    seq![gplan.primary@[0]@, gplan.primary@[1]@]
                }));
                assert(spec_stake_transaction(
                    parsed_address(account@)->Some_0,
                    method,
                    user_amount,
                    probe,
                    t,
                )) by {
                    assert(t.transaction.instructions@.map_values(f) =~= seq![
                        crate::instruction::spec_create_ata_instruction(
                            account_pubkey@,
                            account_pubkey@,
                            spec_kmno_mint_address(),
                            spec_token_program_id(),
                            kmno_ata@,
                        ),
                    ] + (match method {
                        StakeMethod::Stake => spec_stake_ix_list(
                            account_pubkey@,
                            user_state@,
                            kmno_ata@,
                            (user_amount * 1000000) as u64,
                            probe == ProbeOutcome::DoesNotExist,
                        ),
                        StakeMethod::Unstake => seq![
                            spec_unstake_instruction_view(
                                account_pubkey@,
                                user_state@,
                                (user_amount * 1000000000000000000000000) as u128,
                            ),
                            spec_withdraw_instruction(account_pubkey@, user_state@, kmno_ata@),
                        ],
                    }));
                }
            }
            Ok(t)
        },
        Err(_) => {
            proof {
                assert(crate::transaction::spec_plan_order(gplan).len() > 0);
                assert(false);
            }
            Err(ActionError::AssemblyFailure)
        },
    }
}

} // verus!
