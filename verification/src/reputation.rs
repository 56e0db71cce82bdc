use crate::datatypes::{Address, Error};
use crate::ledger::{Ledger, LedgerView};
use crate::rating::{calculate_weighted_rating, Ratio};
use vstd::prelude::*;

verus! {

/// A seller's reputation score as it stood at one moment.
#[derive(Clone, Copy, Debug, PartialEq, Eq, Structural)]
pub struct ReputationRecord {
    /// The score, from 1 to 5.
    pub score: u32,
    /// When the score was computed, in seconds of ledger time.
    pub timestamp: u64,
}

impl Ratio {
    /// The reputation score that goes with this average: 1 up to an average of
    /// 1, 2 up to 2, 3 up to 3, 4 up to 4, and 5 above that. An average that
    /// sits on a boundary gets the lower score.
    pub open spec fn tier(self) -> u32 {
        if self.at_most(1) {
            1
        } else if self.at_most(2) {
            2
        } else if self.at_most(3) {
            3
        } else if self.at_most(4) {
            4
        } else {
            5
        }
    }
}

impl LedgerView {
    /// The seller's reputation score as the totals now give it.
    pub open spec fn reputation_score(self, seller: Address) -> Result<u32, Error> {
        match self.compute_average(seller) {
            Ok(average) => Ok(average.tier()),
            Err(e) => Err(e),
        }
    }

    /// The ledger with one more record at the end of the seller's reputation
    /// scores.
    pub open spec fn append_record(self, seller: Address, score: u32, timestamp: u64) -> LedgerView {
        LedgerView {
            reputation_history: self.reputation_history.insert(
                seller,
                self.reputation_of(seller).push(ReputationRecord { score, timestamp }),
            ),
            ..self
        }
    }
}

/// The reputation score that goes with a weighted average rating.
///
/// Every ratio has a score. A ratio above 4 scores 5 however large it is. A
/// ratio over zero is no average, and the ledger hands none out; it scores 1
/// where its numerator is zero too, and 5 otherwise.
pub fn tier_of(ratio: Ratio) -> (score: u32)
    ensures
        score == ratio.tier(),
        1 <= score <= 5,
{
    let numerator = ratio.numerator as u128;
    let denominator = ratio.denominator as u128;
    if numerator <= denominator {
        1
    } else if numerator <= 2 * denominator {
        2
    } else if numerator <= 3 * denominator {
        3
    } else if numerator <= 4 * denominator {
        4
    } else {
        5
    }
}

/// The seller's reputation score, from the weighted average of the ratings
/// counted so far. Nothing is written.
///
/// A seller without an average has no score: `NoRatingsAvailable`.
pub fn reputation_score_calculate(ledger: &Ledger, seller: Address) -> (result: Result<u32, Error>)
    ensures
        result == ledger@.reputation_score(seller),
        result matches Ok(score) ==> 1 <= score <= 5,
{
    match calculate_weighted_rating(ledger, seller) {
        Ok(average) => Ok(tier_of(average)),
        Err(e) => Err(e),
    }
}

/// Adds a score, stamped with the time it was computed at, at the end of the
/// seller's reputation scores.
pub fn add_reputation_score_history(ledger: &mut Ledger, seller: Address, score: u32, timestamp: u64)
    ensures
        final(ledger)@ == old(ledger)@.append_record(seller, score, timestamp),
{
    let mut reputation_history = match ledger.reputation_history(seller) {
        Some(kept) => kept,
        None => Vec::new(),
    };
    let new_record = ReputationRecord { score, timestamp };
    reputation_history.push(new_record);
    ledger.set_reputation_history(seller, reputation_history);
}

} // verus!
