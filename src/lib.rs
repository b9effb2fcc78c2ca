//! A recurring-billing engine for an account-based ledger whose accounts are
//! charged through a remote threshold signer: the subscription ledger, the
//! transaction builder, the signature codec, and the two-phase signing flow
//! that joins them.

pub mod digest;
pub mod error;
pub mod hex_codec;
pub mod ledger;
pub mod orchestrator;
pub mod proxy;
pub mod signature;
pub mod signer;
pub mod subscription;
pub mod transaction;
