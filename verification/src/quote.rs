//! Decoding of the quote service's instruction set.
//!
//! The swap-quote service answers with a set of pre-built instructions, each
//! transport-encoded as a base58 program address, a list of accounts with
//! per-account flags, and a base64 payload. This module is the single
//! boundary where that transport encoding is translated into the internal
//! instruction representation, and where the service's failure modes are
//! each mapped to a distinct error. Nothing is retried here: the caller
//! decides whether to retry the whole flow.

use vstd::prelude::*;

use crate::address::parse_address;
use crate::address::parsed_address;
use crate::address::Address;
use crate::error::ActionError;
use crate::instruction::AccountRole;
use crate::instruction::AccountRoleView;
use crate::instruction::Instruction;
use crate::instruction::InstructionView;

verus! {

/// One account reference as the service sends it: a base58 address string
/// and the two role flags.
pub struct TransportAccountMeta {
    pub pubkey: String,
    pub is_signer: bool,
    pub is_writable: bool,
}

/// The mathematical value of a transport account reference.
#[verifier::ext_equal]
pub struct TransportAccountMetaView {
    pub pubkey: Seq<char>,
    pub is_signer: bool,
    pub is_writable: bool,
}

impl View for TransportAccountMeta {
    type V = TransportAccountMetaView;

    open spec fn view(&self) -> TransportAccountMetaView {
        TransportAccountMetaView {
            pubkey: self.pubkey@,
            is_signer: self.is_signer,
            is_writable: self.is_writable,
        }
    }
}

/// One instruction as the service sends it: a base58 program address, the
/// ordered account list, and the base64-encoded payload.
pub struct TransportInstruction {
    pub program_id: String,
    pub accounts: Vec<TransportAccountMeta>,
    pub data: String,
}

/// The mathematical value of a transport instruction.
#[verifier::ext_equal]
pub struct TransportInstructionView {
    pub program_id: Seq<char>,
    pub accounts: Seq<TransportAccountMetaView>,
    pub data: Seq<char>,
}

impl View for TransportInstruction {
    type V = TransportInstructionView;

    open spec fn view(&self) -> TransportInstructionView {
        TransportInstructionView {
            program_id: self.program_id@,
            accounts: self.accounts@.map_values(|a: TransportAccountMeta| a@),
            data: self.data@,
        }
    }
}

/// The bytes that a base64 text denotes, if it is well-formed.
///
/// This names the result of the standard-alphabet base64 decoder; it is a
/// function of the characters alone.
pub uninterp spec fn base64_decoded(s: Seq<char>) -> Option<Seq<u8>>;

/// Relies on the `base64` crate's standard-alphabet engine: it decodes a
/// well-formed base64 text into its bytes and rejects every other string;
/// the result depends on the characters alone.
#[verifier::external_body]
fn base64_decode(s: &str) -> (r: Option<Vec<u8>>)
    ensures
        r matches Some(b) ==> base64_decoded(s@) == Some(b@),
        r is None ==> base64_decoded(s@) is None,
{
    match <base64::engine::general_purpose::GeneralPurpose as base64::Engine>::decode(
        &base64::engine::general_purpose::STANDARD,
        s,
    ) {
        Ok(b) => Some(b),
        Err(_) => None,
    }
}

/// What one transport account decodes to: its parsed address with the flags
/// carried over, or nothing when the address string is malformed.
pub open spec fn spec_decode_account(t: TransportAccountMetaView) -> Option<AccountRoleView> {
    match parsed_address(t.pubkey) {
        Some(b) => Some(
            AccountRoleView { address: b, is_signer: t.is_signer, is_writable: t.is_writable },
        ),
        None => None,
    }
}

/// Every account of the list decodes.
pub open spec fn spec_accounts_decodable(accounts: Seq<TransportAccountMetaView>) -> bool {
    forall|i: int| 0 <= i < accounts.len() ==> (#[trigger] spec_decode_account(accounts[i]))
        is Some
}

/// What one transport instruction decodes to: the parsed program address,
/// the decoded account list in its given order, and the base64-decoded
/// payload; or nothing when any part is malformed.
pub open spec fn spec_decode_instruction(t: TransportInstructionView) -> Option<InstructionView> {
    if parsed_address(t.program_id) is Some && base64_decoded(t.data) is Some
        && spec_accounts_decodable(t.accounts) {
        Some(
            InstructionView {
                program_id: parsed_address(t.program_id)->Some_0,
                accounts: Seq::new(
                    t.accounts.len(),
                    |i: int| spec_decode_account(t.accounts[i])->Some_0,
                ),
                data: base64_decoded(t.data)->Some_0,
            },
        )
    } else {
        None
    }
}

/// Decodes one account reference.
fn decode_account(t: &TransportAccountMeta) -> (r: Option<AccountRole>)
    ensures
        r matches Some(a) ==> spec_decode_account(t@) == Some(a@) && a.wf(),
        r is None ==> spec_decode_account(t@) is None,
{
    match parse_address(self_str(&t.pubkey)) {
        Some(address) => Some(
            AccountRole { address, is_signer: t.is_signer, is_writable: t.is_writable },
        ),
        None => None,
    }
}

/// The string slice of an owned string.
fn self_str(s: &String) -> (r: &str)
    ensures
        r@ == s@,
{
    s.as_str()
}

/// Decodes one transport instruction into the internal representation.
pub fn decode_instruction(t: &TransportInstruction) -> (r: Result<Instruction, ActionError>)
    ensures
        r matches Ok(ix) ==> spec_decode_instruction(t@) == Some(ix@) && ix.wf(),
        r matches Err(e) ==> e == ActionError::InvalidResponseBody && spec_decode_instruction(t@)
            is None,
{
    let ghost tv = t@;
    let program_id = match parse_address(self_str(&t.program_id)) {
        Some(a) => a,
        None => {
            return Err(ActionError::InvalidResponseBody);
        },
    };
    let data = match base64_decode(self_str(&t.data)) {
        Some(b) => b,
        None => {
            return Err(ActionError::InvalidResponseBody);
        },
    };
    let mut accounts: Vec<AccountRole> = Vec::new();
    let mut i: usize = 0;
    while i < t.accounts.len()
        invariant
            tv == t@,
            i <= t.accounts@.len(),
            accounts@.len() == i,
            forall|j: int|
                0 <= j < i ==> (#[trigger] spec_decode_account(tv.accounts[j])) is Some
                    && spec_decode_account(tv.accounts[j]) == Some(accounts@[j]@) && accounts@[j].wf(),
        decreases t.accounts@.len() - i,
    {
        match decode_account(&t.accounts[i]) {
            Some(a) => {
                accounts.push(a);
            },
            None => {
                proof {
                    assert(spec_decode_account(tv.accounts[i as int]) is None);
                }
                return Err(ActionError::InvalidResponseBody);
            },
        }
        i += 1;
    }
    let ix = Instruction { program_id, accounts, data };
    proof {
        assert(spec_accounts_decodable(tv.accounts));
        assert forall|j: int| 0 <= j < ix.accounts@.len() implies (#[trigger] ix.accounts@[j]).wf() by {
            assert(spec_decode_account(tv.accounts[j]) == Some(ix.accounts@[j]@));
        }
        assert(ix@.accounts =~= Seq::new(
            tv.accounts.len(),
            |i: int| spec_decode_account(tv.accounts[i])->Some_0,
        ));
        assert(spec_decode_instruction(tv) == Some(ix@)) by {
            assert(ix@ =~= spec_decode_instruction(tv)->Some_0);
        }
    }
    Ok(ix)
}

} // verus!

verus! {

/// The instruction set the service answers with, still transport-encoded:
/// optional pre-instruction, compute-budget and setup lists, exactly one
/// swap instruction, optional cleanup, auxiliary lookup addresses and a
/// prioritization fee.
pub struct TransportSwapInstructions {
    pub token_ledger_instruction: Option<TransportInstruction>,
    pub compute_budget_instructions: Vec<TransportInstruction>,
    pub setup_instructions: Vec<TransportInstruction>,
    pub swap_instruction: TransportInstruction,
    pub cleanup_instruction: Option<TransportInstruction>,
    pub address_lookup_table_addresses: Vec<String>,
    pub prioritization_fee_lamports: u64,
}

/// The same instruction set decoded into the internal representation.
pub struct SwapInstructions {
    pub token_ledger_instruction: Option<Instruction>,
    pub compute_budget_instructions: Vec<Instruction>,
    pub setup_instructions: Vec<Instruction>,
    pub swap_instruction: Instruction,
    pub cleanup_instruction: Option<Instruction>,
    pub address_lookup_table_addresses: Vec<Address>,
    pub prioritization_fee_lamports: u64,
}

/// Every part of the transport-encoded answer decodes.
pub open spec fn spec_swap_decodable(t: TransportSwapInstructions) -> bool {
    &&& (match t.token_ledger_instruction {
        Some(ti) => spec_decode_instruction(ti@) is Some,
        None => true,
    })
    &&& forall|i: int|
        0 <= i < t.compute_budget_instructions@.len() ==> (#[trigger] spec_decode_instruction(
            t.compute_budget_instructions@[i]@,
        )) is Some
    &&& forall|i: int|
        0 <= i < t.setup_instructions@.len() ==> (#[trigger] spec_decode_instruction(
            t.setup_instructions@[i]@,
        )) is Some
    &&& spec_decode_instruction(t.swap_instruction@) is Some
    &&& (match t.cleanup_instruction {
        Some(ti) => spec_decode_instruction(ti@) is Some,
        None => true,
    })
    &&& forall|i: int|
        0 <= i < t.address_lookup_table_addresses@.len() ==> (#[trigger] parsed_address(
            t.address_lookup_table_addresses@[i]@,
        )) is Some
}

/// The decoded answer matches the transport answer part for part, in order.
pub open spec fn spec_swap_decoded(t: TransportSwapInstructions, s: SwapInstructions) -> bool {
    &&& (match t.token_ledger_instruction {
        Some(ti) => s.token_ledger_instruction matches Some(ix) && spec_decode_instruction(ti@)
            == Some(ix@),
        None => s.token_ledger_instruction is None,
    })
    &&& s.compute_budget_instructions@.len() == t.compute_budget_instructions@.len()
    &&& forall|i: int|
        0 <= i < t.compute_budget_instructions@.len() ==> spec_decode_instruction(
            t.compute_budget_instructions@[i]@,
        ) == Some((#[trigger] s.compute_budget_instructions@[i])@)
    &&& s.setup_instructions@.len() == t.setup_instructions@.len()
    &&& forall|i: int|
        0 <= i < t.setup_instructions@.len() ==> spec_decode_instruction(
            t.setup_instructions@[i]@,
        ) == Some((#[trigger] s.setup_instructions@[i])@)
    &&& spec_decode_instruction(t.swap_instruction@) == Some(s.swap_instruction@)
    &&& (match t.cleanup_instruction {
        Some(ti) => s.cleanup_instruction matches Some(ix) && spec_decode_instruction(ti@)
            == Some(ix@),
        None => s.cleanup_instruction is None,
    })
    &&& s.address_lookup_table_addresses@.len() == t.address_lookup_table_addresses@.len()
    &&& forall|i: int|
        0 <= i < t.address_lookup_table_addresses@.len() ==> parsed_address(
            t.address_lookup_table_addresses@[i]@,
        ) == Some((#[trigger] s.address_lookup_table_addresses@[i])@)
    &&& s.prioritization_fee_lamports == t.prioritization_fee_lamports
}

impl SwapInstructions {
    /// Every held instruction is well-formed.
    pub open spec fn wf(&self) -> bool {
        &&& (self.token_ledger_instruction matches Some(ix) ==> ix.wf())
        &&& forall|i: int|
            0 <= i < self.compute_budget_instructions@.len() ==> (
            #[trigger] self.compute_budget_instructions@[i]).wf()
        &&& forall|i: int|
            0 <= i < self.setup_instructions@.len() ==> (
            #[trigger] self.setup_instructions@[i]).wf()
        &&& self.swap_instruction.wf()
        &&& (self.cleanup_instruction matches Some(ix) ==> ix.wf())
    }
}

/// Decodes a list of transport instructions, in order.
fn decode_instruction_list(v: &Vec<TransportInstruction>) -> (r: Result<
    Vec<Instruction>,
    ActionError,
>)
    ensures
        r matches Ok(out) ==> {
            &&& out@.len() == v@.len()
            &&& forall|i: int|
                #![trigger spec_decode_instruction(v@[i]@)]
                #![trigger out@[i]]
                0 <= i < v@.len() ==> spec_decode_instruction(v@[i]@) == Some(out@[i]@)
                    && out@[i].wf()
        },
        r matches Err(e) ==> e == ActionError::InvalidResponseBody && exists|i: int|
            0 <= i < v@.len() && (#[trigger] spec_decode_instruction(v@[i]@)) is None,
{
    let mut out: Vec<Instruction> = Vec::new();
    let mut i: usize = 0;
    while i < v.len()
        invariant
            i <= v@.len(),
            out@.len() == i,
            forall|j: int|
                0 <= j < i ==> (#[trigger] spec_decode_instruction(v@[j]@)) == Some(out@[j]@)
                    && out@[j].wf(),
        decreases v@.len() - i,
    {
        match decode_instruction(&v[i]) {
            Ok(ix) => {
                out.push(ix);
            },
            Err(e) => {
                return Err(e);
            },
        }
        i += 1;
    }
    Ok(out)
}

/// Decodes the service's whole answer at the transport boundary: every
/// instruction and auxiliary address is translated, in order, and any
/// malformed part fails the whole answer as an invalid response body.
pub fn decode_swap_instructions(t: &TransportSwapInstructions) -> (r: Result<
    SwapInstructions,
    ActionError,
>)
    ensures
        r matches Ok(s) ==> spec_swap_decodable(*t) && spec_swap_decoded(*t, s) && s.wf(),
        r matches Err(e) ==> e == ActionError::InvalidResponseBody && !spec_swap_decodable(*t),
{
    let token_ledger_instruction: Option<Instruction> = match &t.token_ledger_instruction {
        Some(ti) => {
            match decode_instruction(ti) {
                Ok(ix) => Some(ix),
                Err(e) => {
                    return Err(e);
                },
            }
        },
        None => None,
    };
    let compute_budget_instructions = match decode_instruction_list(
        &t.compute_budget_instructions,
    ) {
        Ok(v) => v,
        Err(e) => {
            return Err(e);
        },
    };
    let setup_instructions = match decode_instruction_list(&t.setup_instructions) {
        Ok(v) => v,
        Err(e) => {
            return Err(e);
        },
    };
    let swap_instruction = match decode_instruction(&t.swap_instruction) {
        Ok(ix) => ix,
        Err(e) => {
            return Err(e);
        },
    };
    let cleanup_instruction: Option<Instruction> = match &t.cleanup_instruction {
        Some(ti) => {
            match decode_instruction(ti) {
                Ok(ix) => Some(ix),
                Err(e) => {
                    return Err(e);
                },
            }
        },
        None => None,
    };
    let mut address_lookup_table_addresses: Vec<Address> = Vec::new();
    let mut i: usize = 0;
    while i < t.address_lookup_table_addresses.len()
        invariant
            i <= t.address_lookup_table_addresses@.len(),
            address_lookup_table_addresses@.len() == i,
            forall|j: int|
                #![trigger parsed_address(t.address_lookup_table_addresses@[j]@)]
                #![trigger address_lookup_table_addresses@[j]]
                0 <= j < i ==> parsed_address(t.address_lookup_table_addresses@[j]@) == Some(
                    address_lookup_table_addresses@[j]@,
                ),
        decreases t.address_lookup_table_addresses@.len() - i,
    {
        match parse_address(self_str(&t.address_lookup_table_addresses[i])) {
            Some(a) => {
                address_lookup_table_addresses.push(a);
            },
            None => {
                return Err(ActionError::InvalidResponseBody);
            },
        }
        i += 1;
    }
    Ok(
        SwapInstructions {
            token_ledger_instruction,
            compute_budget_instructions,
            setup_instructions,
            swap_instruction,
            cleanup_instruction,
            address_lookup_table_addresses,
            prioritization_fee_lamports: t.prioritization_fee_lamports,
        },
    )
}

/// How the two-call swap-instruction fetch ended, as the surrounding
/// transport layer saw it: a request never completed, the first call's body
/// did not decode as a quote (no quote is available for the pair), the
/// second call answered with a non-success status, its body could not be
/// read as the expected shape, or a transport-encoded answer arrived.
pub enum SwapFetchOutcome {
    NetworkFailure,
    QuoteUnavailable,
    HttpError(u16),
    MalformedBody,
    Response(TransportSwapInstructions),
}

/// Turns the outcome of the swap-instruction fetch into the decoded
/// instruction set or one distinct error per failure mode: a transport
/// failure, an unavailable quote, a non-success status and a malformed body
/// are each surfaced separately and never mistaken for an answer.
pub fn get_swap_instructions(outcome: SwapFetchOutcome) -> (r: Result<
    SwapInstructions,
    ActionError,
>)
    ensures
        r matches Ok(s) ==> outcome matches SwapFetchOutcome::Response(t) && spec_swap_decodable(
            t,
        ) && spec_swap_decoded(t, s) && s.wf(),
        r matches Err(e) ==> {
            ||| e == ActionError::InternalServerError && outcome is NetworkFailure
            ||| e == ActionError::QuoteNotFound && outcome is QuoteUnavailable
            ||| e == ActionError::UnknownServerError && outcome is HttpError
            ||| e == ActionError::InvalidResponseBody && (outcome is MalformedBody || (outcome
                matches SwapFetchOutcome::Response(t) && !spec_swap_decodable(t)))
        },
{
    match outcome {
        SwapFetchOutcome::NetworkFailure => Err(ActionError::InternalServerError),
        SwapFetchOutcome::QuoteUnavailable => Err(ActionError::QuoteNotFound),
        SwapFetchOutcome::HttpError(_) => Err(ActionError::UnknownServerError),
        SwapFetchOutcome::MalformedBody => Err(ActionError::InvalidResponseBody),
        SwapFetchOutcome::Response(t) => decode_swap_instructions(&t),
    }
}

} // verus!
