//! Failure taxonomy of the transaction-assembly pipeline.
//!
//! Every pipeline step reports its failure as one of these variants; nothing
//! is retried internally and no failure is silently downgraded to a success
//! state.

use vstd::prelude::*;

verus! {

/// One distinguishable failure of the pipeline.
///
/// The variants fall into a few groups: caller mistakes (`InvalidAccountPublicKey`,
/// `InvalidReceiverPublicKey`, `InvalidTokenMintPublicKey`, `InvalidNameLength`,
/// `InvalidDescriptionLength`, `InvalidAmount`), encoding failures
/// (`InvalidMetadata`, `EncodingFailure`), a failed bump search
/// (`AddressDerivationFailure`), an unusable ledger read (`LedgerQueryFailure`),
/// failures of the external quote service (`InternalServerError`,
/// `UnknownServerError`, `InvalidResponseBody`, `QuoteNotFound`), and an attempt
/// to assemble a transaction with no instructions (`AssemblyFailure`).
#[derive(Clone, Copy, Debug, PartialEq, Eq, Structural)]
pub enum ActionError {
    InvalidAccountPublicKey,
    InvalidReceiverPublicKey,
    InvalidTokenMintPublicKey,
    InvalidNameLength,
    InvalidDescriptionLength,
    InvalidMetadata,
    InvalidAmount,
    EncodingFailure,
    AddressDerivationFailure,
    LedgerQueryFailure,
    InternalServerError,
    UnknownServerError,
    InvalidResponseBody,
    QuoteNotFound,
    AssemblyFailure,
}

/// The text that describes each failure, fixed per variant.
pub open spec fn spec_message(e: ActionError) -> Seq<char> {
    match e {
        ActionError::InvalidAccountPublicKey => "Invalid account public key"@,
        ActionError::InvalidReceiverPublicKey => "Invalid receiver public key"@,
        ActionError::InvalidTokenMintPublicKey => "Invalid token mint public key"@,
        ActionError::InvalidNameLength => "Invalid name length"@,
        ActionError::InvalidDescriptionLength => "Invalid description length"@,
        ActionError::InvalidMetadata => "Invalid metadata"@,
        ActionError::InvalidAmount => "Invalid amount"@,
        ActionError::EncodingFailure => "Arguments cannot be encoded"@,
        ActionError::AddressDerivationFailure => "No viable bump seed was found"@,
        ActionError::LedgerQueryFailure => "Error obtaining account data"@,
        ActionError::InternalServerError => "Internal server error"@,
        ActionError::UnknownServerError => "Unknown server error"@,
        ActionError::InvalidResponseBody => "Invalid response body"@,
        ActionError::QuoteNotFound => "No quote was found for this token at this time"@,
        ActionError::AssemblyFailure => "A transaction needs at least one instruction"@,
    }
}

impl ActionError {
    /// A short human-readable description of the failure, naming the field
    /// or step that failed.
    pub fn message(&self) -> (r: &'static str)
        ensures
            r@ == spec_message(*self),
    {
        match self {
            ActionError::InvalidAccountPublicKey => "Invalid account public key",
            ActionError::InvalidReceiverPublicKey => "Invalid receiver public key",
            ActionError::InvalidTokenMintPublicKey => "Invalid token mint public key",
            ActionError::InvalidNameLength => "Invalid name length",
            ActionError::InvalidDescriptionLength => "Invalid description length",
            ActionError::InvalidMetadata => "Invalid metadata",
            ActionError::InvalidAmount => "Invalid amount",
            ActionError::EncodingFailure => "Arguments cannot be encoded",
            ActionError::AddressDerivationFailure => "No viable bump seed was found",
            ActionError::LedgerQueryFailure => "Error obtaining account data",
            ActionError::InternalServerError => "Internal server error",
            ActionError::UnknownServerError => "Unknown server error",
            ActionError::InvalidResponseBody => "Invalid response body",
            ActionError::QuoteNotFound => "No quote was found for this token at this time",
            ActionError::AssemblyFailure => "A transaction needs at least one instruction",
        }
    }
}

} // verus!
