use crate::datatypes::{Address, Error};
use crate::ledger::{Ledger, LedgerView};
use vstd::prelude::*;

verus! {

/// The lowest rating a buyer can give.
pub const MIN_RATING: u32 = 1;

/// The highest rating a buyer can give.
pub const MAX_RATING: u32 = 5;

/// One rating of a seller by a buyer. It is written once and never changed.
#[derive(Debug, PartialEq, Eq)]
pub struct Rating {
    /// Who gave the rating.
    pub buyer: Address,
    /// The rating itself, from 1 to 5.
    pub rating: u32,
    /// How much this rating counts in the seller's average.
    pub weight: u32,
    /// What the buyer had to say, if anything.
    pub feedback: Option<String>,
}

impl Clone for Rating {
    fn clone(&self) -> (copy: Rating)
        ensures
            copy == *self,
    {
        let feedback = match &self.feedback {
            Some(text) => Some(text.clone()),
            None => None,
        };
        Rating { buyer: self.buyer, rating: self.rating, weight: self.weight, feedback }
    }
}

/// A weighted average rating, kept exact: the sum of rating times weight over
/// the sum of weights. Nothing is rounded, so an average of 3.5 stays above 3.
#[derive(Clone, Copy, Debug, PartialEq, Eq, Structural)]
pub struct Ratio {
    /// The sum of rating times weight.
    pub numerator: u64,
    /// The sum of weights. It is not zero in a ratio that the ledger hands out.
    pub denominator: u64,
}

impl Ratio {
    /// Whether this ratio is at most the whole number `bound`.
    pub open spec fn at_most(self, bound: nat) -> bool {
        self.numerator <= bound * self.denominator
    }

    /// Whether this ratio is at most `other`, both denominators being positive.
    pub open spec fn le(self, other: Ratio) -> bool {
        self.numerator * other.denominator <= other.numerator * self.denominator
    }
}

/// Whether `rating` lies between `MIN_RATING` and `MAX_RATING`.
pub open spec fn in_range(rating: u32) -> bool {
    MIN_RATING <= rating <= MAX_RATING
}

impl LedgerView {
    /// The ledger with `event` added at the end of the seller's ratings.
    pub open spec fn append_event(self, seller: Address, event: Rating) -> LedgerView {
        LedgerView {
            rating_history: self.rating_history.insert(seller, self.ratings_of(seller).push(event)),
            ..self
        }
    }

    /// The ledger with one more rating counted in the seller's totals:
    /// `rating * weight` more in the first, `weight` more in the second. Totals
    /// that would pass `u64::MAX` are refused.
    pub open spec fn apply(self, seller: Address, rating: u32, weight: u32) -> Result<
        LedgerView,
        Error,
    > {
        let (weighted_sum, weight_total) = self.totals_of(seller);
        if weighted_sum + rating * weight > u64::MAX || weight_total + weight > u64::MAX {
            Err(Error::ArithmeticOverflow)
        } else {
            Ok(
                LedgerView {
                    weighted_rating: self.weighted_rating.insert(
                        seller,
                        ((weighted_sum + rating * weight) as u64, (weight_total + weight) as u64),
                    ),
                    ..self
                },
            )
        }
    }

    /// The seller's weighted average rating. There is none while the weights
    /// add up to zero.
    pub open spec fn compute_average(self, seller: Address) -> Result<Ratio, Error> {
        let (weighted_sum, weight_total) = self.totals_of(seller);
        if weight_total == 0 {
            Err(Error::NoRatingsAvailable)
        } else {
            Ok(Ratio { numerator: weighted_sum, denominator: weight_total })
        }
    }
}

/// Adds a buyer's rating at the end of the seller's ratings.
///
/// A rating outside 1 to 5 is refused with `InvalidScore`. The seller's totals
/// are not touched: see `update_weighted_rating`.
pub fn rate_seller_system(
    ledger: &mut Ledger,
    seller: Address,
    buyer: Address,
    rating: u32,
    weight: u32,
    feedback: Option<String>,
) -> (result: Result<bool, Error>)
    ensures
        match result {
            Ok(added) => {
                &&& added
                &&& in_range(rating)
                &&& final(ledger)@ == old(ledger)@.append_event(
                    seller,
                    Rating { buyer, rating, weight, feedback },
                )
            },
            Err(e) => {
                &&& e == Error::InvalidScore
                &&& !in_range(rating)
                &&& final(ledger)@ == old(ledger)@
            },
        },
{
    if rating < MIN_RATING || rating > MAX_RATING {
        return Err(Error::InvalidScore);
    }
    let seller_rating = Rating { buyer, rating, weight, feedback };
    let mut ratings = match ledger.rating_history(seller) {
        Some(kept) => kept,
        None => Vec::new(),
    };
    ratings.push(seller_rating);
    ledger.set_rating_history(seller, ratings);
    Ok(true)
}

/// The seller's totals as the ledger keeps them: the sum of rating times
/// weight, then the sum of weights. Both are zero for a seller of whom no
/// totals are kept, which is no failure: nobody has rated that seller yet.
pub fn read_weighted_rating(ledger: &Ledger, seller: Address) -> (totals: (u64, u64))
    ensures
        totals == ledger@.totals_of(seller),
{
    match ledger.weighted_rating(seller) {
        Some(kept) => kept,
        None => (0, 0),
    }
}

/// Counts one more rating in the seller's totals.
///
/// The totals are kept in 64 bits, and `rating * weight` is formed in 64 bits
/// too. Where a total would no longer fit, the call is refused with
/// `ArithmeticOverflow` and the totals stay as they were.
pub fn update_weighted_rating(ledger: &mut Ledger, seller: Address, rating: u32, weight: u32) -> (result:
    Result<(), Error>)
    ensures
        match result {
            Ok(()) => old(ledger)@.apply(seller, rating, weight) matches Ok(next) && final(ledger)@
                == next,
            Err(e) => old(ledger)@.apply(seller, rating, weight) == Err::<LedgerView, Error>(e)
                && final(ledger)@ == old(ledger)@,
        },
{
    let (total_weighted_rating, total_weight) = read_weighted_rating(ledger, seller);
    assert(rating * weight <= u64::MAX) by (nonlinear_arith)
        requires
            rating <= u32::MAX,
            weight <= u32::MAX,
    ;
    let weighted: u64 = (rating as u64) * (weight as u64);
    let new_weighted_rating = match total_weighted_rating.checked_add(weighted) {
        Some(sum) => sum,
        None => { return Err(Error::ArithmeticOverflow); },
    };
    let new_weight = match total_weight.checked_add(weight as u64) {
        Some(sum) => sum,
        None => { return Err(Error::ArithmeticOverflow); },
    };
    ledger.set_weighted_rating(seller, (new_weighted_rating, new_weight));
    Ok(())
}

/// The seller's weighted average rating, as an exact ratio.
///
/// A seller whose ratings have no weight in total, or who has no rating at
/// all, has no average: `NoRatingsAvailable`.
pub fn calculate_weighted_rating(ledger: &Ledger, seller: Address) -> (result: Result<Ratio, Error>)
    ensures
        result == ledger@.compute_average(seller),
        result matches Ok(average) ==> average.denominator > 0,
{
    let (total_weighted_rating, total_weight) = read_weighted_rating(ledger, seller);
    if total_weight == 0 {
        return Err(Error::NoRatingsAvailable);
    }
    Ok(Ratio { numerator: total_weighted_rating, denominator: total_weight })
}

} // verus!
