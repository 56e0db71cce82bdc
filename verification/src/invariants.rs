//! What holds of the ledger whatever is submitted to it, proved over the
//! ledger's view.

use crate::datatypes::{Address, Error};
use crate::ledger::LedgerView;
use crate::rating::{in_range, Rating, Ratio};
use crate::reputation::ReputationRecord;
use vstd::prelude::*;

verus! {

/// The sum of rating times weight over `ratings`, added up one by one.
pub open spec fn weighted_sum(ratings: Seq<Rating>) -> nat
    decreases ratings.len(),
{
    if ratings.len() == 0 {
        0
    } else {
        weighted_sum(ratings.drop_last()) + (ratings.last().rating as nat) * (
        ratings.last().weight as nat)
    }
}

/// The sum of the weights over `ratings`, added up one by one.
pub open spec fn weight_sum(ratings: Seq<Rating>) -> nat
    decreases ratings.len(),
{
    if ratings.len() == 0 {
        0
    } else {
        weight_sum(ratings.drop_last()) + ratings.last().weight as nat
    }
}

impl LedgerView {
    /// Whether the seller's totals are what adding up the seller's ratings
    /// gives.
    pub open spec fn replay_agrees(self, seller: Address) -> bool {
        &&& self.totals_of(seller).0 == weighted_sum(self.ratings_of(seller))
        &&& self.totals_of(seller).1 == weight_sum(self.ratings_of(seller))
    }

    /// Whether the seller's records are such as the rating system writes:
    /// every rating from 1 to 5, every reputation score from 1 to 5, and no
    /// record kept that holds nothing.
    pub open spec fn records_valid(self, seller: Address) -> bool {
        &&& self.rating_history.contains_key(seller) ==> self.rating_history[seller].len() > 0
        &&& forall|i: int|
            #![trigger self.ratings_of(seller)[i]]
            0 <= i < self.ratings_of(seller).len() ==> in_range(self.ratings_of(seller)[i].rating)
        &&& self.reputation_history.contains_key(seller) ==> self.reputation_history[seller].len()
            > 0
        &&& forall|i: int|
            #![trigger self.reputation_of(seller)[i]]
            0 <= i < self.reputation_of(seller).len() ==> 1 <= self.reputation_of(seller)[i].score
                <= 5
    }

    /// Whether the seller's records are valid and the seller's totals agree
    /// with the seller's ratings. This holds of every seller in a new ledger,
    /// and rating sellers and computing reputations keep it.
    pub open spec fn consistent(self, seller: Address) -> bool {
        self.records_valid(seller) && self.replay_agrees(seller)
    }

    /// The ledger after each of `ratings` was submitted for `seller`, in
    /// order. A rating that is refused leaves the ledger as it was, and the
    /// next one is tried.
    pub open spec fn submit_all(self, seller: Address, ratings: Seq<Rating>) -> LedgerView
        decreases ratings.len(),
    {
        if ratings.len() == 0 {
            self
        } else {
            let before = self.submit_all(seller, ratings.drop_last());
            let last = ratings.last();
            match before.submit_rating(seller, last.buyer, last.rating, last.weight, last.feedback) {
                Ok(after) => after,
                Err(_) => before,
            }
        }
    }
}

/// In a ledger in which nothing was written, every seller's totals agree with
/// the seller's ratings, both being nothing, and there is no record that could
/// be invalid.
pub proof fn lemma_empty_consistent(seller: Address)
    ensures
        LedgerView::empty().replay_agrees(seller),
        LedgerView::empty().records_valid(seller),
        LedgerView::empty().consistent(seller),
{
}

/// A rating outside 1 to 5 is refused with `InvalidScore` whatever the ledger
/// holds.
pub proof fn lemma_rating_out_of_range_refused(
    ledger: LedgerView,
    seller: Address,
    buyer: Address,
    rating: u32,
    weight: u32,
    feedback: Option<String>,
)
    requires
        rating == 0 || rating > 5,
    ensures
        ledger.submit_rating(seller, buyer, rating, weight, feedback) == Err::<LedgerView, Error>(
            Error::InvalidScore,
        ),
{
}

/// A rating that is accepted is added at the end of the seller's ratings,
/// which are otherwise as they were, and counted in the seller's totals,
/// which do not shrink. The seller's reputation scores and the records of
/// other sellers are as before.
pub proof fn lemma_submit_rating_only_adds(
    ledger: LedgerView,
    seller: Address,
    buyer: Address,
    rating: u32,
    weight: u32,
    feedback: Option<String>,
)
    ensures
        match ledger.submit_rating(seller, buyer, rating, weight, feedback) {
            Ok(after) => {
                &&& after.ratings_of(seller).drop_last() == ledger.ratings_of(seller)
                &&& after.ratings_of(seller).last() == (Rating { buyer, rating, weight, feedback })
                &&& after.totals_of(seller).0 == ledger.totals_of(seller).0 + rating * weight
                &&& after.totals_of(seller).1 == ledger.totals_of(seller).1 + weight
                &&& after.totals_of(seller).0 >= ledger.totals_of(seller).0
                &&& after.totals_of(seller).1 >= ledger.totals_of(seller).1
                &&& after.reputation_history == ledger.reputation_history
                &&& forall|other: Address|
                    other != seller ==> #[trigger] after.ratings_of(other) == ledger.ratings_of(
                        other,
                    ) && after.totals_of(other) == ledger.totals_of(other)
            },
            Err(_) => true,
        },
{
    if ledger.submit_rating(seller, buyer, rating, weight, feedback) is Ok {
        let event = Rating { buyer, rating, weight, feedback };
        assert(ledger.ratings_of(seller).push(event).drop_last() =~= ledger.ratings_of(seller));
        assert(0 <= rating * weight) by (nonlinear_arith);
    }
}

/// One submitted rating keeps totals and ratings in agreement, for the seller
/// rated and for every other, whether the rating is accepted or refused.
pub proof fn lemma_submit_rating_keeps_replay(
    ledger: LedgerView,
    seller: Address,
    buyer: Address,
    rating: u32,
    weight: u32,
    feedback: Option<String>,
    other: Address,
)
    requires
        ledger.replay_agrees(other),
    ensures
        match ledger.submit_rating(seller, buyer, rating, weight, feedback) {
            Ok(after) => after.replay_agrees(other),
            Err(_) => true,
        },
{
    if let Ok(after) = ledger.submit_rating(seller, buyer, rating, weight, feedback) {
        if other == seller {
            // The sums over the longer list are those over the old one plus
            // what the new rating brings, and so are the new totals.
            let event = Rating { buyer, rating, weight, feedback };
            let before = ledger.ratings_of(seller);
            assert(after.ratings_of(seller) == before.push(event));
            assert(before.push(event).drop_last() =~= before);
            assert(before.push(event).last() == event);
        } else {
            assert(after.ratings_of(other) == ledger.ratings_of(other));
            assert(after.totals_of(other) == ledger.totals_of(other));
        }
    }
}

/// After any run of submissions for a seller, accepted or refused, the totals
/// of every seller are still what adding up that seller's ratings gives.
pub proof fn lemma_submit_all_keeps_replay(
    ledger: LedgerView,
    seller: Address,
    ratings: Seq<Rating>,
    other: Address,
)
    requires
        ledger.replay_agrees(other),
    ensures
        ledger.submit_all(seller, ratings).replay_agrees(other),
    decreases ratings.len(),
{
    if ratings.len() > 0 {
        lemma_submit_all_keeps_replay(ledger, seller, ratings.drop_last(), other);
        let before = ledger.submit_all(seller, ratings.drop_last());
        let last = ratings.last();
        lemma_submit_rating_keeps_replay(
            before,
            seller,
            last.buyer,
            last.rating,
            last.weight,
            last.feedback,
            other,
        );
    }
}

/// Adding up more ratings never gives less.
pub proof fn lemma_sums_grow(ratings: Seq<Rating>)
    requires
        ratings.len() > 0,
    ensures
        weighted_sum(ratings.drop_last()) <= weighted_sum(ratings),
        weight_sum(ratings.drop_last()) <= weight_sum(ratings),
{
    assert(0 <= (ratings.last().rating as nat) * (ratings.last().weight as nat))
        by (nonlinear_arith);
}

/// Ratings from 1 to 5 whose sums fit in 64 bits, submitted in order to a
/// ledger in which nothing was written, are all accepted: the seller's
/// ratings are then exactly those submitted, in that order, and the seller's
/// totals are the two sums over them.
pub proof fn lemma_submissions_from_empty(seller: Address, ratings: Seq<Rating>)
    requires
        forall|i: int| 0 <= i < ratings.len() ==> in_range(#[trigger] ratings[i].rating),
        weighted_sum(ratings) <= u64::MAX,
        weight_sum(ratings) <= u64::MAX,
    ensures
        LedgerView::empty().submit_all(seller, ratings).ratings_of(seller) == ratings,
        LedgerView::empty().submit_all(seller, ratings).totals_of(seller).0 == weighted_sum(
            ratings,
        ),
        LedgerView::empty().submit_all(seller, ratings).totals_of(seller).1 == weight_sum(ratings),
    decreases ratings.len(),
{
    if ratings.len() == 0 {
        assert(LedgerView::empty().ratings_of(seller) =~= ratings);
    } else {
        let earlier = ratings.drop_last();
        let last = ratings.last();
        // The earlier ratings are in range and their sums fit, so they were
        // all accepted.
        lemma_sums_grow(ratings);
        assert forall|i: int| 0 <= i < earlier.len() implies in_range(
            #[trigger] earlier[i].rating,
        ) by {
            assert(earlier[i] == ratings[i]);
        }
        lemma_submissions_from_empty(seller, earlier);
        // The last one is in range, and with it the totals are the sums over
        // all of them, which fit: it is accepted too.
        assert(in_range(ratings[ratings.len() - 1].rating));
        assert(earlier.push(last) =~= ratings);
    }
}

/// One submitted rating keeps every seller's records valid, whether it is
/// accepted or refused.
pub proof fn lemma_submit_rating_keeps_records_valid(
    ledger: LedgerView,
    seller: Address,
    buyer: Address,
    rating: u32,
    weight: u32,
    feedback: Option<String>,
    other: Address,
)
    requires
        ledger.records_valid(other),
    ensures
        match ledger.submit_rating(seller, buyer, rating, weight, feedback) {
            Ok(after) => after.records_valid(other),
            Err(_) => true,
        },
{
    if let Ok(after) = ledger.submit_rating(seller, buyer, rating, weight, feedback) {
        assert(after.reputation_of(other) == ledger.reputation_of(other));
        if other == seller {
            let event = Rating { buyer, rating, weight, feedback };
            let before = ledger.ratings_of(seller);
            assert(after.ratings_of(seller) == before.push(event));
            assert forall|i: int| 0 <= i < after.ratings_of(seller).len() implies in_range(
                #[trigger] after.ratings_of(seller)[i].rating,
            ) by {
                if i < before.len() {
                    assert(after.ratings_of(seller)[i] == before[i]);
                }
            }
        } else {
            assert(after.ratings_of(other) == ledger.ratings_of(other));
        }
    }
}

/// Computing and recording a seller's reputation keeps every seller's
/// records valid and every seller's totals in agreement with the ratings.
pub proof fn lemma_reputation_keeps_consistent(
    ledger: LedgerView,
    seller: Address,
    timestamp: u64,
    other: Address,
)
    ensures
        match ledger.compute_and_record_reputation(seller, timestamp) {
            Ok(after) => {
                &&& ledger.records_valid(other) ==> after.records_valid(other)
                &&& ledger.replay_agrees(other) ==> after.replay_agrees(other)
            },
            Err(_) => true,
        },
{
    if let Ok(after) = ledger.compute_and_record_reputation(seller, timestamp) {
        assert(after.ratings_of(other) == ledger.ratings_of(other));
        if ledger.records_valid(other) {
            if other == seller {
                let score = ledger.reputation_score(seller)->Ok_0;
                let before = ledger.reputation_of(seller);
                assert(after.reputation_of(seller) == before.push(
                    ReputationRecord { score, timestamp },
                ));
                assert forall|i: int| 0 <= i < after.reputation_of(seller).len() implies 1
                    <= (#[trigger] after.reputation_of(seller)[i]).score <= 5 by {
                    if i < before.len() {
                        assert(after.reputation_of(seller)[i] == before[i]);
                    }
                }
            } else {
                assert(after.reputation_of(other) == ledger.reputation_of(other));
            }
        }
    }
}

/// Where a seller's records are valid, a record that is there is never
/// empty: a seller without ratings, or without scores, has no record at all.
pub proof fn lemma_kept_records_hold_something(ledger: LedgerView, seller: Address)
    requires
        ledger.records_valid(seller),
    ensures
        ledger.read_log(seller) matches Ok(ratings) ==> ratings.len() > 0,
        ledger.read_history(seller) matches Ok(records) ==> records.len() > 0,
{
}

/// A higher average never gets a lower reputation score.
pub proof fn lemma_tier_monotonic(lower: Ratio, higher: Ratio)
    requires
        lower.denominator > 0,
        higher.denominator > 0,
        lower.le(higher),
    ensures
        lower.tier() <= higher.tier(),
{
    // Whatever whole number bounds the higher average bounds the lower one.
    assert forall|bound: nat| higher.at_most(bound) implies lower.at_most(bound) by {
        let (a, b) = (lower.numerator as int, lower.denominator as int);
        let (c, d) = (higher.numerator as int, higher.denominator as int);
        let k = bound as int;
        assert(a <= k * b) by (nonlinear_arith)
            requires
                a * d <= c * b,
                c <= k * d,
                b > 0,
                d > 0,
                a >= 0,
                k >= 0,
        ;
    }
}

/// An average that is exactly a whole number from 1 to 4 gets that number as
/// its score: a boundary belongs to the lower score.
pub proof fn lemma_tier_on_boundary(score: u32, weight_total: u64)
    requires
        1 <= score <= 4,
        weight_total > 0,
        score * weight_total <= u64::MAX,
    ensures
        (Ratio { numerator: (score * weight_total) as u64, denominator: weight_total }).tier()
            == score,
{
    let ratio = Ratio { numerator: (score * weight_total) as u64, denominator: weight_total };
    assert(ratio.at_most(score as nat));
    assert forall|bound: nat| bound < score implies !ratio.at_most(bound) by {
        assert(bound * weight_total < score * weight_total) by (nonlinear_arith)
            requires
                bound < score,
                weight_total > 0,
        ;
    }
}

/// Every average above 4 gets the score 5, however far above it is.
pub proof fn lemma_tier_above_four(ratio: Ratio)
    requires
        ratio.numerator > 4 * ratio.denominator,
    ensures
        ratio.tier() == 5,
{
}

/// A seller whose weights add up to zero has no reputation score, and
/// asking for one records nothing.
pub proof fn lemma_no_reputation_without_weight(ledger: LedgerView, seller: Address, timestamp: u64)
    requires
        ledger.totals_of(seller).1 == 0,
    ensures
        ledger.reputation_score(seller) == Err::<u32, Error>(Error::NoRatingsAvailable),
        ledger.compute_and_record_reputation(seller, timestamp) == Err::<LedgerView, Error>(
            Error::NoRatingsAvailable,
        ),
{
}

/// Computing a seller's reputation twice in a row, with no rating in
/// between, records the same score twice, each with its own time: the
/// reputation scores grow by exactly two records, and ratings and totals are
/// as before.
pub proof fn lemma_reputation_computed_twice(
    ledger: LedgerView,
    seller: Address,
    first: u64,
    second: u64,
)
    requires
        ledger.totals_of(seller).1 > 0,
    ensures
        ({
            &&& ledger.reputation_score(seller) matches Ok(score)
            &&& ledger.compute_and_record_reputation(seller, first) matches Ok(once)
            &&& once.reputation_score(seller) == Ok::<u32, Error>(score)
            &&& once.compute_and_record_reputation(seller, second) matches Ok(twice)
            &&& twice.reputation_of(seller) == ledger.reputation_of(seller).push(
                ReputationRecord { score, timestamp: first },
            ).push(ReputationRecord { score, timestamp: second })
            &&& twice.reputation_of(seller).len() == ledger.reputation_of(seller).len() + 2
            &&& twice.weighted_rating == ledger.weighted_rating
            &&& twice.rating_history == ledger.rating_history
        }),
{
}

} // verus!
