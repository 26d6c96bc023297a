//! Escrow-mediated marketplace core: a deterministic custody address shared
//! by a listing transition and a purchase transition, the binary instruction
//! encoding that drives them, and a model of the ledger they act on.

pub mod accounts;
pub mod actions;
pub mod cpi;
pub mod derivation;
pub mod error;
pub mod instruction;
pub mod ledger;
pub mod transitions;
