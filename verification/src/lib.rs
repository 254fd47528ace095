//! A token sale with a price that rises in fixed time phases.
//!
//! A seller places a token balance in escrow. Buyers pay the price of the
//! current phase, the seller may hand out free allocations, and at the end the
//! unsold tokens and the account balances go back to the seller. This crate
//! holds the rules of that sale: the layout of the sale record, the phase
//! pricing, the instructions sent to the ledger, and the four handlers that
//! decide what each instruction does.
//!
//! The handlers compute. They take a snapshot of the accounts and return a
//! [`processor::Settlement`]: the ledger calls to make, in order, and the
//! write to the sale record that is due once all of them succeeded.
pub mod error;
pub mod wire;
pub mod state;
pub mod instruction;
pub mod pricing;
pub mod ledger;
pub mod sale;
pub mod processor;
