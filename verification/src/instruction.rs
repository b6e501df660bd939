//! Program-call instructions and their assembly.
//!
//! An instruction targets one fixed on-chain program, carries an ordered list
//! of account roles and an opaque payload: the call discriminant followed by
//! the encoded arguments. The account order is part of the target program's
//! contract and is preserved exactly as supplied; it is not validated
//! internally, because no invariant can be checked without the program's
//! declared account schema.

use vstd::prelude::*;

use crate::address::clone_bytes;
use crate::address::find_program_address;
use crate::address::seeds_view;
use crate::address::spec_find_pda;
use crate::address::Address;
use crate::address::Derived;
use crate::address::DerivedView;
use crate::digest::discriminant;
use crate::digest::spec_discriminant;
use crate::error::ActionError;
use crate::ids::associated_token_program_id;
use crate::ids::spec_associated_token_program_id;
use crate::ids::spec_system_program_id;
use crate::ids::system_program_id;

verus! {

/// A reference to an address taking part in a call, with its two flags:
/// whether the call writes to the account and whether its holder must sign.
pub struct AccountRole {
    pub address: Address,
    pub is_signer: bool,
    pub is_writable: bool,
}

/// The mathematical value of an account role.
#[verifier::ext_equal]
pub struct AccountRoleView {
    pub address: Seq<u8>,
    pub is_signer: bool,
    pub is_writable: bool,
}

/// A writable account role.
pub open spec fn writable(address: Seq<u8>, is_signer: bool) -> AccountRoleView {
    AccountRoleView { address, is_signer, is_writable: true }
}

/// A read-only account role.
pub open spec fn readonly(address: Seq<u8>, is_signer: bool) -> AccountRoleView {
    AccountRoleView { address, is_signer, is_writable: false }
}

impl View for AccountRole {
    type V = AccountRoleView;

    open spec fn view(&self) -> AccountRoleView {
        AccountRoleView {
            address: self.address@,
            is_signer: self.is_signer,
            is_writable: self.is_writable,
        }
    }
}

impl AccountRole {
    pub open spec fn wf(&self) -> bool {
        self.address.wf()
    }

    /// A role the call writes to.
    pub fn new(address: Address, is_signer: bool) -> (r: AccountRole)
        ensures
            r@ == writable(address@, is_signer),
            address.wf() ==> r.wf(),
    {
        AccountRole { address, is_signer, is_writable: true }
    }

    /// A role the call only reads.
    pub fn new_readonly(address: Address, is_signer: bool) -> (r: AccountRole)
        ensures
            r@ == readonly(address@, is_signer),
            address.wf() ==> r.wf(),
    {
        AccountRole { address, is_signer, is_writable: false }
    }
}

/// One discrete program call: target program, ordered account roles, and the
/// opaque payload bytes. Immutable once built.
pub struct Instruction {
    pub program_id: Address,
    pub accounts: Vec<AccountRole>,
    pub data: Vec<u8>,
}

/// The mathematical value of an instruction.
#[verifier::ext_equal]
pub struct InstructionView {
    pub program_id: Seq<u8>,
    pub accounts: Seq<AccountRoleView>,
    pub data: Seq<u8>,
}

impl View for Instruction {
    type V = InstructionView;

    open spec fn view(&self) -> InstructionView {
        InstructionView {
            program_id: self.program_id@,
            accounts: self.accounts@.map_values(|a: AccountRole| a@),
            data: self.data@,
        }
    }
}

impl Instruction {
    pub open spec fn wf(&self) -> bool {
        self.program_id.wf() && forall|i: int|
            0 <= i < self.accounts@.len() ==> (#[trigger] self.accounts@[i]).wf()
    }
}

/// Composes one program call from the target program, the caller-ordered
/// account roles, the namespaced call name and the already-encoded arguments:
/// the payload is the call's discriminant followed by the argument bytes.
pub fn build_instruction(
    program_id: Address,
    accounts: Vec<AccountRole>,
    call_name: &[u8],
    args: &[u8],
) -> (r: Instruction)
    ensures
        r@.program_id == program_id@,
        r@.accounts == accounts@.map_values(|a: AccountRole| a@),
        r@.data == spec_discriminant(call_name@) + args@,
        program_id.wf() && (forall|i: int|
            0 <= i < accounts@.len() ==> (#[trigger] accounts@[i]).wf()) ==> r.wf(),
{
    let mut data = discriminant(call_name);
    let mut tail = vstd::slice::slice_to_vec(args);
    data.append(&mut tail);
    Instruction { program_id, accounts, data }
}

/// The seed list of an associated token account: wallet, token program, mint.
pub open spec fn spec_ata_seeds(
    wallet: Seq<u8>,
    token_program: Seq<u8>,
    mint: Seq<u8>,
) -> Seq<Seq<u8>> {
    seq![wallet, token_program, mint]
}

/// Derives the associated token account of a wallet for a token mint under
/// the given token program: the program-derived address of the
/// associated-token-account program with seeds wallet, token program, mint.
pub fn get_associated_token_address(
    wallet: &Address,
    mint: &Address,
    token_program: &Address,
) -> (r: Derived)
    requires
        wallet.wf(),
        mint.wf(),
        token_program.wf(),
    ensures
        r@ == spec_find_pda(
            spec_ata_seeds(wallet@, token_program@, mint@),
            spec_associated_token_program_id(),
            255,
        ),
        r matches Derived::Found(a, _) ==> a.wf(),
{
    let mut seeds: Vec<Vec<u8>> = Vec::new();
    seeds.push(clone_bytes(&wallet.bytes));
    seeds.push(clone_bytes(&token_program.bytes));
    seeds.push(clone_bytes(&mint.bytes));
    let program = associated_token_program_id();
    proof {
        assert(seeds_view(seeds@) =~= spec_ata_seeds(wallet@, token_program@, mint@));
    }
    find_program_address(&seeds, &program)
}

/// The account roles of an idempotent associated-token-account creation call:
/// funder (writable signer), the derived associated account (writable), then
/// the wallet, mint, system program and token program, all read-only.
pub open spec fn spec_create_ata_accounts(
    funder: Seq<u8>,
    wallet: Seq<u8>,
    mint: Seq<u8>,
    token_program: Seq<u8>,
    ata: Seq<u8>,
) -> Seq<AccountRoleView> {
    seq![
        writable(funder, true),
        writable(ata, false),
        readonly(wallet, false),
        readonly(mint, false),
        readonly(spec_system_program_id(), false),
        readonly(token_program, false),
    ]
}

/// The idempotent creation call for an associated token account: it targets
/// the associated-token-account program and carries the single byte 1, the
/// program's creation-idempotent tag.
pub open spec fn spec_create_ata_instruction(
    funder: Seq<u8>,
    wallet: Seq<u8>,
    mint: Seq<u8>,
    token_program: Seq<u8>,
    ata: Seq<u8>,
) -> InstructionView {
    InstructionView {
        program_id: spec_associated_token_program_id(),
        accounts: spec_create_ata_accounts(funder, wallet, mint, token_program, ata),
        data: seq![1u8],
    }
}

/// Builds the idempotent creation call for the wallet's associated token
/// account: it creates the account when it does not exist yet and succeeds
/// without effect when it does. The payload is the single byte 1, the
/// creation-idempotent tag of the associated-token-account program.
pub fn create_associated_token_account_idempotent(
    funder: &Address,
    wallet: &Address,
    mint: &Address,
    token_program: &Address,
) -> (r: Result<Instruction, ActionError>)
    requires
        funder.wf(),
        wallet.wf(),
        mint.wf(),
        token_program.wf(),
    ensures
        r matches Ok(ix) ==> (spec_find_pda(
            spec_ata_seeds(wallet@, token_program@, mint@),
            spec_associated_token_program_id(),
            255,
        ) matches DerivedView::Found(ata, _) && ix@ == spec_create_ata_instruction(
            funder@,
            wallet@,
            mint@,
            token_program@,
            ata,
        ) && ix.wf()),
        r matches Err(e) ==> e == ActionError::AddressDerivationFailure && spec_find_pda(
            spec_ata_seeds(wallet@, token_program@, mint@),
            spec_associated_token_program_id(),
            255,
        ) is Exhausted,
{
    let ata = match get_associated_token_address(wallet, mint, token_program) {
        Derived::Found(a, _) => a,
        Derived::Exhausted => {
            return Err(ActionError::AddressDerivationFailure);
        },
    };
    let ghost ata_bytes = ata@;
    let mut accounts: Vec<AccountRole> = Vec::new();
    accounts.push(AccountRole::new(funder.clone(), true));
    accounts.push(AccountRole::new(ata, false));
    accounts.push(AccountRole::new_readonly(wallet.clone(), false));
    accounts.push(AccountRole::new_readonly(mint.clone(), false));
    accounts.push(AccountRole::new_readonly(system_program_id(), false));
    accounts.push(AccountRole::new_readonly(token_program.clone(), false));
    let mut data: Vec<u8> = Vec::new();
    data.push(1u8);
    let ix = Instruction { program_id: associated_token_program_id(), accounts, data };
    proof {
        assert(ix@.accounts =~= spec_create_ata_accounts(
            funder@,
            wallet@,
            mint@,
            token_program@,
            ata_bytes,
        ));
        assert(ix@.data =~= seq![1u8]);
        assert(ix@ =~= spec_create_ata_instruction(
            funder@,
            wallet@,
            mint@,
            token_program@,
            ata_bytes,
        ));
    }
    Ok(ix)
}

} // verus!
