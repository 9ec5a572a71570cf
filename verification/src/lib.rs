//! Governance-ledger resolution and stake-weight computation.
//!
//! A ledger snapshot lists accounts with a balance and an optional delegate.
//! The resolver decides how a snapshot is located, unpacked and cached; the
//! engine computes the voting weight of a public key under a proposal version.

pub mod amount;
pub mod archive;
pub mod error;
pub mod laws;
pub mod ledger;
pub mod protocol;
pub mod resolver;
pub mod text;
