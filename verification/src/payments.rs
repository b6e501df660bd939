//! The payment flow.
//!
//! A payment swaps the payer's chosen token into the SEND token through the
//! external quote service: the payer's addresses are parsed and the derived
//! accounts computed first, the surrounding transport layer then fetches the
//! quote and the pre-built swap instructions, and the decoded fragments are
//! assembled around the idempotent token-account creation in the service's
//! declared order. A failed fetch halts the pipeline before assembly: no
//! partial transaction is ever returned.

use vstd::prelude::*;

use crate::address::parse_address;
use crate::address::parsed_address;
use crate::address::spec_find_pda;
use crate::address::Address;
use crate::address::Derived;
use crate::address::DerivedView;
use crate::error::ActionError;
use crate::ids::send_mint_address;
use crate::ids::spec_associated_token_program_id;
use crate::ids::spec_send_mint_address;
use crate::ids::spec_token_program_id;
use crate::ids::token_program_id;
use crate::instruction::create_associated_token_account_idempotent;
use crate::instruction::get_associated_token_address;
use crate::instruction::spec_ata_seeds;
use crate::instruction::spec_create_ata_instruction;
use crate::instruction::Instruction;
use crate::instruction::InstructionView;
use crate::quote::get_swap_instructions;
use crate::quote::spec_decode_instruction;
use crate::quote::spec_swap_decodable;
use crate::quote::SwapFetchOutcome;
use crate::quote::TransportInstruction;
use crate::quote::TransportSwapInstructions;
use crate::transaction::assemble;
use crate::transaction::ActionTransaction;
use crate::transaction::InstructionPlan;

verus! {

/// The values a payment request derives before any network call: the three
/// parsed addresses, the receiver's SEND token account, and the idempotent
/// creation call for the payer's own SEND token account.
pub struct PayContext {
    pub account_pubkey: Address,
    pub receiver_pubkey: Address,
    pub token_mint: Address,
    pub receiver_send_ata: Address,
    pub create_send_ata_instruction: Instruction,
}

/// Parses the payer, receiver and token mint address strings and derives
/// the two SEND token accounts a payment needs. Pure address work: no
/// network call happens here.
pub fn prepare_pay(account: &str, receiver: &str, token_mint: &str) -> (r: Result<
    PayContext,
    ActionError,
>)
    ensures
        r matches Ok(ctx) ==> {
            &&& parsed_address(account@) == Some(ctx.account_pubkey@)
            &&& parsed_address(receiver@) == Some(ctx.receiver_pubkey@)
            &&& parsed_address(token_mint@) == Some(ctx.token_mint@)
            &&& spec_find_pda(
                spec_ata_seeds(
                    ctx.receiver_pubkey@,
                    spec_token_program_id(),
                    spec_send_mint_address(),
                ),
                spec_associated_token_program_id(),
                255,
            ) == DerivedView::Found(ctx.receiver_send_ata@, spec_find_pda(
                spec_ata_seeds(
                    ctx.receiver_pubkey@,
                    spec_token_program_id(),
                    spec_send_mint_address(),
                ),
                spec_associated_token_program_id(),
                255,
            )->Found_1)
            &&& (spec_find_pda(
                spec_ata_seeds(
                    ctx.account_pubkey@,
                    spec_token_program_id(),
                    spec_send_mint_address(),
                ),
                spec_associated_token_program_id(),
                255,
            ) matches DerivedView::Found(ata, _) && ctx.create_send_ata_instruction@
                == spec_create_ata_instruction(
                ctx.account_pubkey@,
                ctx.account_pubkey@,
                spec_send_mint_address(),
                spec_token_program_id(),
                ata,
            ))
            &&& ctx.account_pubkey.wf() && ctx.receiver_pubkey.wf() && ctx.token_mint.wf()
                && ctx.receiver_send_ata.wf() && ctx.create_send_ata_instruction.wf()
        },
        r matches Err(e) ==> {
            ||| e == ActionError::InvalidAccountPublicKey && parsed_address(account@) is None
            ||| (e == ActionError::InvalidReceiverPublicKey && parsed_address(account@) is Some
                && parsed_address(receiver@) is None)
            ||| (e == ActionError::InvalidTokenMintPublicKey && parsed_address(account@) is Some
                && parsed_address(receiver@) is Some && parsed_address(token_mint@) is None)
            ||| (e == ActionError::AddressDerivationFailure && parsed_address(account@) is Some
                && parsed_address(receiver@) is Some && parsed_address(token_mint@) is Some && (
            spec_find_pda(
                spec_ata_seeds(
                    parsed_address(receiver@)->Some_0,
                    spec_token_program_id(),
                    spec_send_mint_address(),
                ),
                spec_associated_token_program_id(),
                255,
            ) is Exhausted || spec_find_pda(
                spec_ata_seeds(
                    parsed_address(account@)->Some_0,
                    spec_token_program_id(),
                    spec_send_mint_address(),
                ),
                spec_associated_token_program_id(),
                255,
            ) is Exhausted))
        },
{
    let account_pubkey = match parse_address(account) {
        Some(a) => a,
        None => {
            return Err(ActionError::InvalidAccountPublicKey);
        },
    };
    let receiver_pubkey = match parse_address(receiver) {
        Some(a) => a,
        None => {
            return Err(ActionError::InvalidReceiverPublicKey);
        },
    };
    let token_mint = match parse_address(token_mint) {
        Some(a) => a,
        None => {
            return Err(ActionError::InvalidTokenMintPublicKey);
        },
    };
    let send_mint = send_mint_address();
    let token_program = token_program_id();
    let receiver_send_ata = match get_associated_token_address(
        &receiver_pubkey,
        &send_mint,
        &token_program,
    ) {
        Derived::Found(a, _) => a,
        Derived::Exhausted => {
            return Err(ActionError::AddressDerivationFailure);
        },
    };
    let create_send_ata_instruction = match create_associated_token_account_idempotent(
        &account_pubkey,
        &account_pubkey,
        &send_mint,
        &token_program,
    ) {
        Ok(ix) => ix,
        Err(e) => {
            return Err(e);
        },
    };
    Ok(
        PayContext {
            account_pubkey,
            receiver_pubkey,
            token_mint,
            receiver_send_ata,
            create_send_ata_instruction,
        },
    )
}

/// The views of an optional externally supplied fragment, once decoded.
pub open spec fn spec_opt_fragment_views(o: Option<TransportInstruction>) -> Seq<InstructionView> {
    match o {
        Some(ti) => seq![spec_decode_instruction(ti@)->Some_0],
        None => Seq::empty(),
    }
}

/// The views of an externally supplied fragment list, once decoded, in its
/// given order.
pub open spec fn spec_list_fragment_views(v: Seq<TransportInstruction>) -> Seq<InstructionView> {
    Seq::new(v.len(), |i: int| spec_decode_instruction(v[i]@)->Some_0)
}

/// The decoded fragments of the service's answer in the fixed read order:
/// pre-instruction, compute-budget list, setup list, the swap instruction,
/// cleanup instruction.
pub open spec fn spec_swap_fragment_views(t: TransportSwapInstructions) -> Seq<InstructionView> {
    spec_opt_fragment_views(t.token_ledger_instruction) + spec_list_fragment_views(
        t.compute_budget_instructions@,
    ) + spec_list_fragment_views(t.setup_instructions@) + seq![
        spec_decode_instruction(t.swap_instruction@)->Some_0,
    ] + spec_opt_fragment_views(t.cleanup_instruction)
}

/// Assembles the payment transaction from the prepared context and the
/// outcome of the swap-instruction fetch: the payer's token-account
/// creation first, then the decoded fragments in the service's declared
/// order. Every fetch failure halts the pipeline with its own error before
/// any assembly happens.
pub fn pay(ctx: PayContext, outcome: SwapFetchOutcome) -> (r: Result<
    ActionTransaction,
    ActionError,
>)
    ensures
        r matches Ok(t) ==> outcome matches SwapFetchOutcome::Response(ts) && spec_swap_decodable(
            ts,
        ) && {
            &&& t.transaction.instructions@.map_values(|ix: Instruction| ix@) == seq![
                ctx.create_send_ata_instruction@,
            ] + spec_swap_fragment_views(ts)
            &&& t.message matches Some(m) && m@ == "Payment successfully sent"@
        },
        r matches Err(e) ==> {
            ||| e == ActionError::InternalServerError && outcome is NetworkFailure
            ||| e == ActionError::QuoteNotFound && outcome is QuoteUnavailable
            ||| e == ActionError::UnknownServerError && outcome is HttpError
            ||| e == ActionError::InvalidResponseBody && (outcome is MalformedBody || (outcome
                matches SwapFetchOutcome::Response(ts) && !spec_swap_decodable(ts)))
        },
{
    let s = match get_swap_instructions(outcome) {
        Ok(s) => s,
        Err(e) => {
            return Err(e);
        },
    };
    let ghost cb0 = s.compute_budget_instructions@;
    let ghost setup0 = s.setup_instructions@;
    let mut external_setup = s.compute_budget_instructions;
    let mut setup_rest = s.setup_instructions;
    external_setup.append(&mut setup_rest);
    let mut prerequisite: Vec<Instruction> = Vec::new();
    prerequisite.push(ctx.create_send_ata_instruction);
    let mut primary: Vec<Instruction> = Vec::new();
    primary.push(s.swap_instruction);
    let plan = InstructionPlan {
        prerequisite,
        conditional_init: None,
        external_pre: s.token_ledger_instruction,
        external_setup,
        primary,
        external_cleanup: s.cleanup_instruction,
    };
    let ghost gplan = plan;
    match assemble(plan, Some("Payment successfully sent".to_owned())) {
        Ok(t) => {
            proof {
                let f = |ix: Instruction| ix@;
                let order = crate::transaction::spec_plan_order(gplan);
                assert(gplan.external_setup@ == cb0 + setup0);
                assert(t.transaction.instructions@ == order);
                assert(t.transaction.instructions@.map_values(f) =~= seq![
                    ctx.create_send_ata_instruction@,
                ] + spec_swap_fragment_views(outcome->Response_0));
            }
            Ok(t)
        },
        Err(_) => {
            proof {
                assert(crate::transaction::spec_plan_order(gplan).len() > 0);
                assert(false);
            }
            Err(ActionError::AssemblyFailure)
        },
    }
}

} // verus!
