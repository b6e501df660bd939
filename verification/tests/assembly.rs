use tx_assembly::address::Address;
use tx_assembly::error::ActionError;
use tx_assembly::instruction::{AccountRole, Instruction};
use tx_assembly::transaction::{assemble, InstructionPlan};

fn tagged_instruction(tag: u8) -> Instruction {
    Instruction {
        program_id: Address { bytes: vec![tag; 32] },
        accounts: vec![AccountRole {
            address: Address { bytes: vec![tag; 32] },
            is_signer: false,
            is_writable: true,
        }],
        data: vec![tag],
    }
}

fn empty_plan() -> InstructionPlan {
    InstructionPlan {
        prerequisite: vec![],
        conditional_init: None,
        external_pre: None,
        external_setup: vec![],
        primary: vec![],
        external_cleanup: None,
    }
}

#[test]
fn empty_plan_fails_with_assembly_failure() {
    match assemble(empty_plan(), None) {
        Err(e) => assert_eq!(e, ActionError::AssemblyFailure),
        Ok(_) => panic!("an empty plan must not assemble"),
    }
}

#[test]
fn prerequisite_init_primary_keep_their_order() {
    let mut plan = empty_plan();
    plan.prerequisite = vec![tagged_instruction(1)];
    plan.conditional_init = Some(tagged_instruction(2));
    plan.primary = vec![tagged_instruction(3)];
    let t = assemble(plan, None).unwrap();
    let tags: Vec<u8> = t
        .transaction
        .instructions
        .iter()
        .map(|ix| ix.data[0])
        .collect();
    assert_eq!(tags, vec![1, 2, 3]);
}

#[test]
fn all_slots_assemble_in_the_fixed_order() {
    let plan = InstructionPlan {
        prerequisite: vec![tagged_instruction(1), tagged_instruction(2)],
        conditional_init: Some(tagged_instruction(3)),
        external_pre: Some(tagged_instruction(4)),
        external_setup: vec![tagged_instruction(5), tagged_instruction(6)],
        primary: vec![tagged_instruction(7)],
        external_cleanup: Some(tagged_instruction(8)),
    };
    let t = assemble(plan, Some("done".to_string())).unwrap();
    let tags: Vec<u8> = t
        .transaction
        .instructions
        .iter()
        .map(|ix| ix.data[0])
        .collect();
    assert_eq!(tags, vec![1, 2, 3, 4, 5, 6, 7, 8]);
    assert_eq!(t.message, Some("done".to_string()));
}

#[test]
fn single_instruction_assembles() {
    let mut plan = empty_plan();
    plan.primary = vec![tagged_instruction(9)];
    let t = assemble(plan, None).unwrap();
    assert_eq!(t.transaction.instructions.len(), 1);
    assert!(t.message.is_none());
}

#[test]
fn error_messages_name_the_failure() {
    assert_eq!(
        ActionError::AssemblyFailure.message(),
        "A transaction needs at least one instruction"
    );
    assert_eq!(
        ActionError::InvalidNameLength.message(),
        "Invalid name length"
    );
    assert_eq!(
        ActionError::QuoteNotFound.message(),
        "No quote was found for this token at this time"
    );
}
