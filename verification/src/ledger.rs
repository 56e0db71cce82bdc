use crate::datatypes::Address;
use crate::rating::Rating;
use crate::reputation::ReputationRecord;
use crate::DataKey;
use std::collections::HashMap;
use vstd::prelude::*;

verus! {

broadcast use vstd::std_specs::hash::group_hash_axioms;

/// What a ledger holds, record by record. A seller of whom nothing was ever
/// written has no record at all: no empty one.
#[verifier::ext_equal]
pub struct LedgerView {
    /// Each seller's ratings, oldest first.
    pub rating_history: Map<Address, Seq<Rating>>,
    /// Each seller's totals: the sum of rating times weight, then the sum of weights.
    pub weighted_rating: Map<Address, (u64, u64)>,
    /// Each seller's reputation scores, oldest first.
    pub reputation_history: Map<Address, Seq<ReputationRecord>>,
}

impl LedgerView {
    /// The ledger in which nothing was written yet.
    pub open spec fn empty() -> LedgerView {
        LedgerView {
            rating_history: Map::empty(),
            weighted_rating: Map::empty(),
            reputation_history: Map::empty(),
        }
    }

    /// Whether a record is kept under `key`.
    pub open spec fn contains(self, key: DataKey) -> bool {
        match key {
            DataKey::RatingHistory(seller) => self.rating_history.contains_key(seller),
            DataKey::WeightedRating(seller) => self.weighted_rating.contains_key(seller),
            DataKey::ReputationHistory(seller) => self.reputation_history.contains_key(seller),
        }
    }

    /// The seller's ratings, oldest first; none where no record is kept.
    pub open spec fn ratings_of(self, seller: Address) -> Seq<Rating> {
        if self.rating_history.contains_key(seller) {
            self.rating_history[seller]
        } else {
            Seq::empty()
        }
    }

    /// The seller's totals; both zero where no record is kept.
    pub open spec fn totals_of(self, seller: Address) -> (u64, u64) {
        if self.weighted_rating.contains_key(seller) {
            self.weighted_rating[seller]
        } else {
            (0, 0)
        }
    }

    /// The seller's reputation scores, oldest first; none where no record is kept.
    pub open spec fn reputation_of(self, seller: Address) -> Seq<ReputationRecord> {
        if self.reputation_history.contains_key(seller) {
            self.reputation_history[seller]
        } else {
            Seq::empty()
        }
    }
}

/// The store behind the rating system: one record per seller and kind, read
/// and written whole.
#[derive(Debug)]
pub struct Ledger {
    rating_history: HashMap<Address, Vec<Rating>>,
    weighted_rating: HashMap<Address, (u64, u64)>,
    reputation_history: HashMap<Address, Vec<ReputationRecord>>,
}

impl View for Ledger {
    type V = LedgerView;

    closed spec fn view(&self) -> LedgerView {
        LedgerView {
            rating_history: Map::new(
                |seller: Address| self.rating_history@.contains_key(seller),
                |seller: Address| self.rating_history@[seller]@,
            ),
            weighted_rating: self.weighted_rating@,
            reputation_history: Map::new(
                |seller: Address| self.reputation_history@.contains_key(seller),
                |seller: Address| self.reputation_history@[seller]@,
            ),
        }
    }
}

impl Ledger {
    /// A ledger in which nothing is written yet.
    pub fn new() -> (ledger: Ledger)
        ensures
            ledger@ == LedgerView::empty(),
            forall|seller: Address| #[trigger] ledger@.consistent(seller),
    {
        Ledger {
            rating_history: HashMap::new(),
            weighted_rating: HashMap::new(),
            reputation_history: HashMap::new(),
        }
    }

    /// Whether a record is kept under `key`.
    pub fn has(&self, key: DataKey) -> (kept: bool)
        ensures
            kept == self@.contains(key),
    {
        match key {
            DataKey::RatingHistory(seller) => self.rating_history.contains_key(&seller),
            DataKey::WeightedRating(seller) => self.weighted_rating.contains_key(&seller),
            DataKey::ReputationHistory(seller) => self.reputation_history.contains_key(&seller),
        }
    }

    /// The seller's ratings as they are kept, or `None` where no record is kept.
    pub fn rating_history(&self, seller: Address) -> (kept: Option<Vec<Rating>>)
        ensures
            match kept {
                Some(ratings) => self@.rating_history.contains_key(seller)
                    && ratings@ == self@.rating_history[seller],
                None => !self@.rating_history.contains_key(seller),
            },
    {
        match self.rating_history.get(&seller) {
            Some(ratings) => {
                let copy = ratings.clone();
                assert(copy@ =~= ratings@);
                Some(copy)
            },
            None => None,
        }
    }

    /// The seller's totals as they are kept, or `None` where no record is kept.
    pub fn weighted_rating(&self, seller: Address) -> (kept: Option<(u64, u64)>)
        ensures
            match kept {
                Some(totals) => self@.weighted_rating.contains_key(seller)
                    && totals == self@.weighted_rating[seller],
                None => !self@.weighted_rating.contains_key(seller),
            },
    {
        match self.weighted_rating.get(&seller) {
            Some(totals) => Some(*totals),
            None => None,
        }
    }

    /// The seller's reputation scores as they are kept, or `None` where no
    /// record is kept.
    pub fn reputation_history(&self, seller: Address) -> (kept: Option<Vec<ReputationRecord>>)
        ensures
            match kept {
                Some(records) => self@.reputation_history.contains_key(seller)
                    && records@ == self@.reputation_history[seller],
                None => !self@.reputation_history.contains_key(seller),
            },
    {
        match self.reputation_history.get(&seller) {
            Some(records) => {
                let copy = records.clone();
                assert(copy@ =~= records@);
                Some(copy)
            },
            None => None,
        }
    }

    /// Writes the seller's ratings, in place of any that were kept.
    pub fn set_rating_history(&mut self, seller: Address, ratings: Vec<Rating>)
        ensures
            final(self)@ == (LedgerView {
                rating_history: old(self)@.rating_history.insert(seller, ratings@),
                ..old(self)@
            }),
    {
        self.rating_history.insert(seller, ratings);
    }

    /// Writes the seller's totals, in place of any that were kept.
    pub fn set_weighted_rating(&mut self, seller: Address, totals: (u64, u64))
        ensures
            final(self)@ == (LedgerView {
                weighted_rating: old(self)@.weighted_rating.insert(seller, totals),
                ..old(self)@
            }),
    {
        self.weighted_rating.insert(seller, totals);
    }

    /// Writes the seller's reputation scores, in place of any that were kept.
    pub fn set_reputation_history(&mut self, seller: Address, records: Vec<ReputationRecord>)
        ensures
            final(self)@ == (LedgerView {
                reputation_history: old(self)@.reputation_history.insert(seller, records@),
                ..old(self)@
            }),
    {
        self.reputation_history.insert(seller, records);
    }
}

} // verus!
