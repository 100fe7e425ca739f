//! Transition logic of a cross-chain token bridge.
//!
//! Signed messages from a rotating set of guardians are checked and applied to
//! the bridge's storage records: guardian sets, transfer proposals and claim
//! records, each stored in an account at a deterministically derived address.
//! Calls into the token ledger are handed back to the host as values.

pub mod account;
pub mod address;
pub mod codec;
pub mod conservation;
pub mod error;
pub mod guardian;
pub mod hash;
pub mod inbound;
pub mod instruction;
pub mod invoke;
pub mod keys;
pub mod laws;
pub mod outbound;
pub mod processor;
pub mod run;
pub mod state;
pub mod token;
pub mod vaa;
pub mod world;
