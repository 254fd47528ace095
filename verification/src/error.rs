//! The reasons for which an instruction is turned down.
use vstd::prelude::*;

verus! {

/// Why an instruction failed. A failed instruction changes nothing.
#[derive(Clone, Copy, Debug, PartialEq, Eq, Structural)]
pub enum SaleError {
    /// A signature that the instruction needs is missing.
    AuthorizationError,
    /// An account is not owned by the service it must belong to.
    OwnershipError,
    /// The sale record is already initialized, or not yet.
    StateError,
    /// Funds are insufficient, or an account is below the minimum balance.
    BalanceError,
    /// The accounts handed in are not those the sale record names.
    DataMismatchError,
    /// The instruction or the record bytes are malformed.
    DecodeError,
    /// A price or an amount left the range of its type.
    ArithmeticError,
}

} // verus!
