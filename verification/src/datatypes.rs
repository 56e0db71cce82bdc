use vstd::prelude::*;

verus! {

/// An account, as the ledger knows it: a number that the host gives each party.
/// The ledger only compares these numbers.
pub type Address = u64;

/// Why a call on the ledger was refused. A refused call changes nothing.
#[derive(Copy, Clone, Debug, PartialEq, Eq, Structural)]
pub enum Error {
    /// No reputation score was ever recorded for the seller.
    ReputationHistoryNotFound,
    /// No rating was ever recorded for the seller.
    RatingHistoryNotFound,
    /// The rating is not between 1 and 5.
    InvalidScore,
    /// The seller's ratings have no weight in total, so there is no average.
    NoRatingsAvailable,
    /// The seller's totals would no longer fit in 64 bits.
    ArithmeticOverflow,
}

} // verus!
