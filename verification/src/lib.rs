//! Assembly of unsigned transactions for fixed on-chain programs.
//!
//! The crate covers the instruction-encoding and transaction-assembly
//! pipeline: computing call discriminants, binary-serializing typed
//! arguments in the exact byte layout the target programs expect, deriving
//! program-owned addresses deterministically, deciding whether a one-time
//! initialization call must be prepended, decoding externally supplied
//! instruction fragments, and packaging the ordered instruction list into a
//! single unsigned transaction.

pub mod address;
pub mod codec;
pub mod digest;
pub mod error;
pub mod ids;
pub mod instruction;
pub mod json;
pub mod payments;
pub mod quote;
pub mod squads;
pub mod staking;
pub mod transaction;
pub mod utils;
