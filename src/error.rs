use vstd::prelude::*;

verus! {

/// The ways in which an operation on a budget, or on the store that holds
/// budgets, can fail. None of them leaves a partial change behind.
#[derive(Debug, Clone, Copy, PartialEq, Eq, Structural)]
pub enum BudgetError {
    /// A withdrawal would leave the budget at or below zero.
    InsufficientFunds,
    /// No budget or transaction has the identifier that was asked for.
    NotFound,
    /// The store refused a write (a duplicate key or a dangling reference).
    ConstraintViolation,
    /// The store could not be opened or used.
    StoreUnavailable,
    /// The resulting amount does not fit in an `i64` number of cents.
    Overflow,
}

} // verus!
