//! A custodial value-vault state machine: a single owner-controlled record
//! tracks a ledger balance, a token-mint binding, and a withdrawal cooldown.
//! Four operations — initialize, deposit, withdraw, set the cooldown — are
//! gated by ownership, checked arithmetic, and an elapsed-time policy.

pub mod codec;
pub mod error;
pub mod ident;
pub mod instruction;
pub mod processor;
pub mod state;
