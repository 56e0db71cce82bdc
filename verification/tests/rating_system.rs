use rating_system_contract::datatypes::{Address, Error};
use rating_system_contract::history::{_get_rating_history, get_reputation_history};
use rating_system_contract::ledger::Ledger;
use rating_system_contract::rating::Rating;
use rating_system_contract::reputation::ReputationRecord;
use rating_system_contract::{DataKey, RatingSystemContract};

const SELLER: Address = 11;
const OTHER_SELLER: Address = 12;
const ALICE: Address = 21;
const BOB: Address = 22;
const CAROL: Address = 23;

fn rated_three_times() -> Ledger {
    let mut ledger = Ledger::new();
    assert_eq!(
        RatingSystemContract::rate_seller(&mut ledger, SELLER, ALICE, 5, 2, Some(String::from("fast"))),
        Ok(())
    );
    assert_eq!(RatingSystemContract::rate_seller(&mut ledger, SELLER, BOB, 3, 1, None), Ok(()));
    assert_eq!(RatingSystemContract::rate_seller(&mut ledger, SELLER, CAROL, 1, 1, None), Ok(()));
    ledger
}

#[test]
fn three_ratings_are_kept_in_order_and_score_four() {
    let mut ledger = rated_three_times();
    assert_eq!(ledger.weighted_rating(SELLER), Some((14, 4)));
    assert_eq!(
        _get_rating_history(&ledger, &SELLER),
        Ok(vec![
            Rating { buyer: ALICE, rating: 5, weight: 2, feedback: Some(String::from("fast")) },
            Rating { buyer: BOB, rating: 3, weight: 1, feedback: None },
            Rating { buyer: CAROL, rating: 1, weight: 1, feedback: None },
        ])
    );
    assert_eq!(RatingSystemContract::seller_reputation_score(&mut ledger, SELLER, 1_700_000_000), Ok(4));
    assert_eq!(
        get_reputation_history(&ledger, &SELLER),
        Ok(vec![ReputationRecord { score: 4, timestamp: 1_700_000_000 }])
    );
}

#[test]
fn reputation_history_of_a_seller_never_scored_is_not_found() {
    let ledger = Ledger::new();
    assert_eq!(get_reputation_history(&ledger, &SELLER), Err(Error::ReputationHistoryNotFound));
    let rated = rated_three_times();
    assert_eq!(get_reputation_history(&rated, &SELLER), Err(Error::ReputationHistoryNotFound));
    assert!(!rated.has(DataKey::ReputationHistory(SELLER)));
}

#[test]
fn rating_history_of_a_seller_never_rated_is_not_found() {
    let ledger = Ledger::new();
    assert_eq!(_get_rating_history(&ledger, &SELLER), Err(Error::RatingHistoryNotFound));
    let rated = rated_three_times();
    assert_eq!(_get_rating_history(&rated, &OTHER_SELLER), Err(Error::RatingHistoryNotFound));
}

#[test]
fn ratings_of_zero_and_six_are_refused_and_change_nothing() {
    let mut fresh = Ledger::new();
    assert_eq!(
        RatingSystemContract::rate_seller(&mut fresh, SELLER, ALICE, 0, 1, None),
        Err(Error::InvalidScore)
    );
    assert_eq!(
        RatingSystemContract::rate_seller(&mut fresh, SELLER, ALICE, 6, 1, None),
        Err(Error::InvalidScore)
    );
    assert!(!fresh.has(DataKey::RatingHistory(SELLER)));
    assert!(!fresh.has(DataKey::WeightedRating(SELLER)));

    let mut ledger = rated_three_times();
    let ratings_before = _get_rating_history(&ledger, &SELLER);
    for rating in [0, 6, 7, u32::MAX] {
        assert_eq!(
            RatingSystemContract::rate_seller(&mut ledger, SELLER, BOB, rating, 9, None),
            Err(Error::InvalidScore)
        );
    }
    assert_eq!(_get_rating_history(&ledger, &SELLER), ratings_before);
    assert_eq!(ledger.weighted_rating(SELLER), Some((14, 4)));
}

#[test]
fn every_rating_from_one_to_five_is_accepted() {
    let mut ledger = Ledger::new();
    for rating in 1..=5 {
        assert_eq!(RatingSystemContract::rate_seller(&mut ledger, SELLER, ALICE, rating, 1, None), Ok(()));
    }
    assert_eq!(ledger.weighted_rating(SELLER), Some((15, 5)));
    assert_eq!(_get_rating_history(&ledger, &SELLER).map(|ratings| ratings.len()), Ok(5));
}

#[test]
fn no_score_without_weight_and_nothing_is_recorded() {
    let mut ledger = Ledger::new();
    assert_eq!(
        RatingSystemContract::seller_reputation_score(&mut ledger, SELLER, 5),
        Err(Error::NoRatingsAvailable)
    );
    assert_eq!(get_reputation_history(&ledger, &SELLER), Err(Error::ReputationHistoryNotFound));

    // A rating that weighs nothing is kept, but gives no average.
    assert_eq!(RatingSystemContract::rate_seller(&mut ledger, SELLER, ALICE, 4, 0, None), Ok(()));
    assert_eq!(ledger.weighted_rating(SELLER), Some((0, 0)));
    assert_eq!(_get_rating_history(&ledger, &SELLER).map(|ratings| ratings.len()), Ok(1));
    assert_eq!(
        RatingSystemContract::seller_reputation_score(&mut ledger, SELLER, 6),
        Err(Error::NoRatingsAvailable)
    );
    assert!(!ledger.has(DataKey::ReputationHistory(SELLER)));
}

#[test]
fn computing_the_score_twice_records_it_twice() {
    let mut ledger = rated_three_times();
    assert_eq!(RatingSystemContract::seller_reputation_score(&mut ledger, SELLER, 100), Ok(4));
    let ratings_before = _get_rating_history(&ledger, &SELLER);
    assert_eq!(RatingSystemContract::seller_reputation_score(&mut ledger, SELLER, 160), Ok(4));
    assert_eq!(RatingSystemContract::seller_reputation_score(&mut ledger, SELLER, 160), Ok(4));
    assert_eq!(
        get_reputation_history(&ledger, &SELLER),
        Ok(vec![
            ReputationRecord { score: 4, timestamp: 100 },
            ReputationRecord { score: 4, timestamp: 160 },
            ReputationRecord { score: 4, timestamp: 160 },
        ])
    );
    assert_eq!(ledger.weighted_rating(SELLER), Some((14, 4)));
    assert_eq!(_get_rating_history(&ledger, &SELLER), ratings_before);
}

#[test]
fn totals_always_equal_the_sums_over_the_ratings() {
    let mut ledger = Ledger::new();
    let submissions: [(u32, u32); 8] =
        [(5, 2), (3, 1), (0, 4), (1, 1), (6, 6), (4, 0), (2, 1000), (5, u32::MAX)];
    for (step, (rating, weight)) in submissions.iter().enumerate() {
        let accepted =
            RatingSystemContract::rate_seller(&mut ledger, SELLER, step as u64, *rating, *weight, None);
        assert_eq!(accepted.is_ok(), (1..=5).contains(rating));
        let ratings = _get_rating_history(&ledger, &SELLER).unwrap_or_default();
        let weighted_sum: u64 = ratings.iter().map(|r| r.rating as u64 * r.weight as u64).sum();
        let weight_sum: u64 = ratings.iter().map(|r| r.weight as u64).sum();
        assert_eq!(ledger.weighted_rating(SELLER).unwrap_or((0, 0)), (weighted_sum, weight_sum));
    }
    assert_eq!(
        ledger.weighted_rating(SELLER),
        Some((10 + 3 + 1 + 2000 + 5 * 4_294_967_295, 2 + 1 + 1 + 1000 + 4_294_967_295))
    );
    assert_eq!(_get_rating_history(&ledger, &SELLER).map(|ratings| ratings.len()), Ok(6));
}

#[test]
fn totals_that_would_not_fit_are_refused_and_change_nothing() {
    let mut ledger = rated_three_times();
    ledger.set_weighted_rating(SELLER, (u64::MAX - 4, 4));
    let ratings_before = _get_rating_history(&ledger, &SELLER);
    assert_eq!(
        RatingSystemContract::rate_seller(&mut ledger, SELLER, ALICE, 5, 1, None),
        Err(Error::ArithmeticOverflow)
    );
    assert_eq!(ledger.weighted_rating(SELLER), Some((u64::MAX - 4, 4)));
    assert_eq!(_get_rating_history(&ledger, &SELLER), ratings_before);
    // One less still fits, to the last unit.
    assert_eq!(RatingSystemContract::rate_seller(&mut ledger, SELLER, ALICE, 4, 1, None), Ok(()));
    assert_eq!(ledger.weighted_rating(SELLER), Some((u64::MAX, 5)));

    ledger.set_weighted_rating(OTHER_SELLER, (7, u64::MAX - 1));
    assert_eq!(
        RatingSystemContract::rate_seller(&mut ledger, OTHER_SELLER, ALICE, 1, 2, None),
        Err(Error::ArithmeticOverflow)
    );
    assert_eq!(ledger.weighted_rating(OTHER_SELLER), Some((7, u64::MAX - 1)));
    assert!(!ledger.has(DataKey::RatingHistory(OTHER_SELLER)));
}

#[test]
fn sellers_do_not_share_records() {
    let mut ledger = rated_three_times();
    assert_eq!(RatingSystemContract::rate_seller(&mut ledger, OTHER_SELLER, ALICE, 1, 3, None), Ok(()));
    assert_eq!(RatingSystemContract::seller_reputation_score(&mut ledger, OTHER_SELLER, 50), Ok(1));
    assert_eq!(ledger.weighted_rating(SELLER), Some((14, 4)));
    assert_eq!(ledger.weighted_rating(OTHER_SELLER), Some((3, 3)));
    assert_eq!(_get_rating_history(&ledger, &SELLER).map(|ratings| ratings.len()), Ok(3));
    assert_eq!(get_reputation_history(&ledger, &SELLER), Err(Error::ReputationHistoryNotFound));
    assert_eq!(
        get_reputation_history(&ledger, &OTHER_SELLER),
        Ok(vec![ReputationRecord { score: 1, timestamp: 50 }])
    );
}

#[test]
fn a_buyer_may_rate_the_same_seller_again() {
    let mut ledger = Ledger::new();
    assert_eq!(RatingSystemContract::rate_seller(&mut ledger, SELLER, ALICE, 2, 1, None), Ok(()));
    assert_eq!(RatingSystemContract::rate_seller(&mut ledger, SELLER, ALICE, 4, 1, None), Ok(()));
    assert_eq!(ledger.weighted_rating(SELLER), Some((6, 2)));
    assert_eq!(RatingSystemContract::seller_reputation_score(&mut ledger, SELLER, 1), Ok(3));
}
