//! Ordering and packaging of the final instruction list.
//!
//! The assembler concatenates the instruction fragments of one request in a
//! fixed order — prerequisite, conditional initialization, externally
//! supplied pre-instruction, externally supplied setup, primary action,
//! externally supplied cleanup — with no reordering and no deduplication,
//! and wraps the list into an unsigned transaction. A transaction with no
//! instructions is refused.

use vstd::prelude::*;

use crate::error::ActionError;
use crate::instruction::Instruction;

verus! {

/// An ordered instruction list packaged for later signing and submission,
/// not yet authorized. Built fresh per request and never mutated afterwards.
pub struct UnsignedTransaction {
    pub instructions: Vec<Instruction>,
}

impl UnsignedTransaction {
    pub open spec fn wf(&self) -> bool {
        &&& self.instructions@.len() > 0
        &&& forall|i: int|
            0 <= i < self.instructions@.len() ==> (#[trigger] self.instructions@[i]).wf()
    }
}

/// An unsigned transaction together with an optional human-readable status
/// message; the message has no semantic effect on the transaction itself.
pub struct ActionTransaction {
    pub transaction: UnsignedTransaction,
    pub message: Option<String>,
}

/// The instruction fragments of one request, in their assembly slots.
pub struct InstructionPlan {
    /// Idempotent setup calls that must run first, e.g. account creation.
    pub prerequisite: Vec<Instruction>,
    /// The one-time initialization call, present exactly when the state
    /// probe reported that the target account does not exist yet.
    pub conditional_init: Option<Instruction>,
    /// The externally supplied pre-instruction, read before the setup list.
    pub external_pre: Option<Instruction>,
    /// Externally supplied setup instructions, kept in their given order.
    pub external_setup: Vec<Instruction>,
    /// The primary action instructions of the request.
    pub primary: Vec<Instruction>,
    /// The externally supplied cleanup instruction, read last.
    pub external_cleanup: Option<Instruction>,
}

/// The sequence an optional instruction contributes: its one element, or none.
pub open spec fn opt_seq(o: Option<Instruction>) -> Seq<Instruction> {
    match o {
        Some(ix) => seq![ix],
        None => Seq::empty(),
    }
}

/// The exact order in which a plan's fragments are assembled.
pub open spec fn spec_plan_order(p: InstructionPlan) -> Seq<Instruction> {
    p.prerequisite@ + opt_seq(p.conditional_init) + opt_seq(p.external_pre) + p.external_setup@
        + p.primary@ + opt_seq(p.external_cleanup)
}

/// Concatenates the plan's fragments in the fixed order and wraps them into
/// an unsigned transaction. The instruction list is never empty: a plan with
/// no instructions at all fails with `AssemblyFailure` and produces nothing.
pub fn assemble(plan: InstructionPlan, message: Option<String>) -> (r: Result<
    ActionTransaction,
    ActionError,
>)
    ensures
        r matches Ok(t) ==> t.transaction.instructions@ == spec_plan_order(plan)
            && t.transaction.instructions@.len() > 0 && t.message == message,
        r matches Err(e) ==> e == ActionError::AssemblyFailure && spec_plan_order(plan).len() == 0,
{
    let ghost p = plan;
    let InstructionPlan {
        mut prerequisite,
        conditional_init,
        external_pre,
        mut external_setup,
        mut primary,
        external_cleanup,
    } = plan;
    let mut instructions: Vec<Instruction> = Vec::new();
    instructions.append(&mut prerequisite);
    if let Some(ix) = conditional_init {
        instructions.push(ix);
    }
    if let Some(ix) = external_pre {
        instructions.push(ix);
    }
    instructions.append(&mut external_setup);
    instructions.append(&mut primary);
    if let Some(ix) = external_cleanup {
        instructions.push(ix);
    }
    proof {
        assert(instructions@ =~= spec_plan_order(p));
    }
    if instructions.len() == 0 {
        return Err(ActionError::AssemblyFailure);
    }
    Ok(ActionTransaction { transaction: UnsignedTransaction { instructions }, message })
}

/// The instruction-order invariant on a minimal plan: prerequisite `[a]`,
/// conditional initialization `b` and primary `[c]` assemble to exactly
/// `[a, b, c]`, never reordered.
pub proof fn lemma_plan_order_three(p: InstructionPlan, a: Instruction, b: Instruction, c: Instruction)
    requires
        p.prerequisite@ == seq![a],
        p.conditional_init == Some(b),
        p.external_pre is None,
        p.external_setup@ == Seq::<Instruction>::empty(),
        p.primary@ == seq![c],
        p.external_cleanup is None,
    ensures
        spec_plan_order(p) == seq![a, b, c],
{
    assert(spec_plan_order(p) =~= seq![a, b, c]);
}

} // verus!
