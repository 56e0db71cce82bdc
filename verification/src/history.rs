use crate::datatypes::{Address, Error};
use crate::ledger::{Ledger, LedgerView};
use crate::rating::Rating;
use crate::reputation::ReputationRecord;
use vstd::prelude::*;

verus! {

impl LedgerView {
    /// The seller's ratings, oldest first, where any were ever recorded.
    pub open spec fn read_log(self, seller: Address) -> Result<Seq<Rating>, Error> {
        if self.rating_history.contains_key(seller) {
            Ok(self.rating_history[seller])
        } else {
            Err(Error::RatingHistoryNotFound)
        }
    }

    /// The seller's reputation scores, oldest first, where any were ever
    /// recorded.
    pub open spec fn read_history(self, seller: Address) -> Result<Seq<ReputationRecord>, Error> {
        if self.reputation_history.contains_key(seller) {
            Ok(self.reputation_history[seller])
        } else {
            Err(Error::ReputationHistoryNotFound)
        }
    }
}

/// The seller's ratings, oldest first.
///
/// A seller who was never rated has no record, which is not the same as an
/// empty one: `RatingHistoryNotFound`. A caller may well read that as "no
/// ratings yet".
pub fn _get_rating_history(ledger: &Ledger, seller: &Address) -> (result: Result<Vec<Rating>, Error>)
    ensures
        match result {
            Ok(ratings) => ledger@.read_log(*seller) == Ok::<Seq<Rating>, Error>(ratings@),
            Err(e) => ledger@.read_log(*seller) == Err::<Seq<Rating>, Error>(e),
        },
{
    match ledger.rating_history(*seller) {
        Some(ratings) => Ok(ratings),
        None => Err(Error::RatingHistoryNotFound),
    }
}

/// The seller's reputation scores, oldest first.
///
/// A seller whose reputation was never computed has no record, which is not
/// the same as an empty one: `ReputationHistoryNotFound`. A caller may well
/// read that as "no scores yet".
pub fn get_reputation_history(ledger: &Ledger, seller: &Address) -> (result: Result<
    Vec<ReputationRecord>,
    Error,
>)
    ensures
        match result {
            Ok(records) => ledger@.read_history(*seller) == Ok::<Seq<ReputationRecord>, Error>(
                records@,
            ),
            Err(e) => ledger@.read_history(*seller) == Err::<Seq<ReputationRecord>, Error>(e),
        },
{
    match ledger.reputation_history(*seller) {
        Some(reputation_record) => Ok(reputation_record),
        None => Err(Error::ReputationHistoryNotFound),
    }
}

} // verus!
