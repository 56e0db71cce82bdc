//! A reputation ledger for a marketplace: buyers rate sellers, the ledger keeps
//! each seller's ratings and their weighted totals, and derives a reputation
//! score from 1 to 5 on request.

use crate::datatypes::{Address, Error};
use crate::invariants::{
    lemma_reputation_keeps_consistent, lemma_submit_rating_keeps_records_valid,
    lemma_submit_rating_keeps_replay,
};
use crate::ledger::{Ledger, LedgerView};
use crate::rating::{in_range, rate_seller_system, update_weighted_rating, Rating, MAX_RATING, MIN_RATING};
use crate::reputation::{add_reputation_score_history, reputation_score_calculate};
use vstd::prelude::*;

pub mod datatypes;
pub mod history;
pub mod invariants;
pub mod ledger;
pub mod rating;
pub mod reputation;

verus! {

/// The name under which a record is kept in the ledger: what kind of record
/// it is, and whose.
#[derive(Clone, Copy, Debug, PartialEq, Eq, Structural)]
pub enum DataKey {
    /// The seller's ratings, in the order they were given.
    RatingHistory(Address),
    /// The seller's totals: the sum of rating times weight, and the sum of weights.
    WeightedRating(Address),
    /// The seller's reputation scores, in the order they were computed.
    ReputationHistory(Address),
}

impl LedgerView {
    /// The ledger after a buyer's rating of a seller: the rating is added to
    /// the seller's ratings and counted in the seller's totals, both or
    /// neither.
    pub open spec fn submit_rating(
        self,
        seller: Address,
        buyer: Address,
        rating: u32,
        weight: u32,
        feedback: Option<String>,
    ) -> Result<LedgerView, Error> {
        if !in_range(rating) {
            Err(Error::InvalidScore)
        } else {
            self.append_event(seller, Rating { buyer, rating, weight, feedback }).apply(
                seller,
                rating,
                weight,
            )
        }
    }

    /// The ledger after the seller's reputation score was computed at
    /// `timestamp` and recorded. The score itself is `reputation_score`.
    pub open spec fn compute_and_record_reputation(self, seller: Address, timestamp: u64) -> Result<
        LedgerView,
        Error,
    > {
        match self.reputation_score(seller) {
            Ok(score) => Ok(self.append_record(seller, score, timestamp)),
            Err(e) => Err(e),
        }
    }
}

/// The rating system: what a marketplace calls to have a seller rated and to
/// have a seller's reputation computed.
pub struct RatingSystemContract;

impl RatingSystemContract {
    /// Records a buyer's rating of a seller and counts it in the seller's
    /// totals.
    ///
    /// A rating outside 1 to 5 is refused with `InvalidScore`, totals that
    /// would no longer fit with `ArithmeticOverflow`. A refused rating leaves
    /// the ledger as it was: the ratings and the totals change together or
    /// not at all.
    pub fn rate_seller(
        ledger: &mut Ledger,
        seller: Address,
        buyer: Address,
        rating: u32,
        weight: u32,
        feedback: Option<String>,
    ) -> (result: Result<(), Error>)
        ensures
            match result {
                Ok(()) => old(ledger)@.submit_rating(seller, buyer, rating, weight, feedback)
                    matches Ok(next) && final(ledger)@ == next,
                Err(e) => old(ledger)@.submit_rating(seller, buyer, rating, weight, feedback)
                    == Err::<LedgerView, Error>(e) && final(ledger)@ == old(ledger)@,
            },
            !in_range(rating) ==> result == Err::<(), Error>(Error::InvalidScore),
            forall|other: Address|
                old(ledger)@.replay_agrees(other) ==> #[trigger] final(ledger)@.replay_agrees(
                    other,
                ),
            forall|other: Address|
                old(ledger)@.records_valid(other) ==> #[trigger] final(ledger)@.records_valid(
                    other,
                ),
    {
        proof {
            let submitted = old(ledger)@.submit_rating(seller, buyer, rating, weight, feedback);
            assert forall|other: Address| #[trigger]
                old(ledger)@.replay_agrees(other) implies (match submitted {
                Ok(after) => after.replay_agrees(other),
                Err(_) => true,
            }) by {
                lemma_submit_rating_keeps_replay(
                    old(ledger)@,
                    seller,
                    buyer,
                    rating,
                    weight,
                    feedback,
                    other,
                );
            }
            assert forall|other: Address| #[trigger]
                old(ledger)@.records_valid(other) implies (match submitted {
                Ok(after) => after.records_valid(other),
                Err(_) => true,
            }) by {
                lemma_submit_rating_keeps_records_valid(
                    old(ledger)@,
                    seller,
                    buyer,
                    rating,
                    weight,
                    feedback,
                    other,
                );
            }
        }
        if rating < MIN_RATING || rating > MAX_RATING {
            return Err(Error::InvalidScore);
        }
        // The totals go first: they are the step that can be refused, and a
        // refusal there must find the ratings untouched.
        match update_weighted_rating(ledger, seller, rating, weight) {
            Ok(()) => {},
            Err(e) => { return Err(e); },
        }
        match rate_seller_system(ledger, seller, buyer, rating, weight, feedback) {
            Ok(_) => Ok(()),
            Err(e) => Err(e),
        }
    }

    /// Computes the seller's reputation score, records it with the time
    /// `timestamp`, and returns it.
    ///
    /// Each call adds a record, also where the score has not changed. The
    /// ratings and totals are only read. A seller without an average is
    /// refused with `NoRatingsAvailable`, and nothing is recorded.
    pub fn seller_reputation_score(ledger: &mut Ledger, seller: Address, timestamp: u64) -> (result:
        Result<u32, Error>)
        ensures
            result == old(ledger)@.reputation_score(seller),
            result matches Ok(score) ==> 1 <= score <= 5,
            match old(ledger)@.compute_and_record_reputation(seller, timestamp) {
                Ok(next) => result is Ok && final(ledger)@ == next,
                Err(_) => result is Err && final(ledger)@ == old(ledger)@,
            },
            old(ledger)@.totals_of(seller).1 == 0 <==> result == Err::<u32, Error>(
                Error::NoRatingsAvailable,
            ),
            final(ledger)@.rating_history == old(ledger)@.rating_history,
            final(ledger)@.weighted_rating == old(ledger)@.weighted_rating,
            forall|other: Address|
                old(ledger)@.consistent(other) ==> #[trigger] final(ledger)@.consistent(other),
    {
        proof {
            assert forall|other: Address| #[trigger]
                old(ledger)@.consistent(other) implies (match old(
                ledger,
            )@.compute_and_record_reputation(seller, timestamp) {
                Ok(after) => after.consistent(other),
                Err(_) => true,
            }) by {
                lemma_reputation_keeps_consistent(old(ledger)@, seller, timestamp, other);
            }
        }
        let reputation_score = match reputation_score_calculate(ledger, seller) {
            Ok(score) => score,
            Err(e) => { return Err(e); },
        };
        add_reputation_score_history(ledger, seller, reputation_score, timestamp);
        Ok(reputation_score)
    }
}

} // verus!
