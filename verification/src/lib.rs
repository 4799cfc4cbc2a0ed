//! A custodial token-distribution escrow: a creator deposits a pool of
//! fungible tokens under the control of a deterministic, keyless authority;
//! eligible users later claim a one-time share computed from usage counters
//! scaled by creator-chosen multipliers; the creator may cancel and reclaim
//! the unclaimed pool.
//!
//! The library holds the escrow state machine and the binary instruction
//! protocol that drives it. The surrounding host runtime and the external
//! token-ledger service are collaborators: handlers decide, and hand back
//! the token operations the host must perform atomically with the record
//! updates.

pub mod authority;
pub mod bytes;
pub mod error;
pub mod instruction;
pub mod processor;
pub mod state;
pub mod token_account;
