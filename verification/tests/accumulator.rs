use private_voting::private_governance::{
    cast_vote, mask, tally_batch, Ballot, CurrentTally, UpdateResult, UserVote, BATCH,
    CHOICE_ABSTAIN, CHOICE_NO, CHOICE_YES,
};

fn apply(counts: [u64; 3], choice: u64, weight: u64) -> [u64; 3] {
    let result: UpdateResult = cast_vote(CurrentTally { counts }, UserVote { choice, weight });
    result.new_counts
}

#[test]
fn yes_then_no_vote() {
    let first = apply([0, 0, 0], 1, 5);
    assert_eq!(first, [5, 0, 0]);
    let second = apply(first, 2, 3);
    assert_eq!(second, [5, 3, 0]);
}

#[test]
fn abstain_vote_goes_to_third_bucket() {
    assert_eq!(apply([5, 3, 0], 3, 7), [5, 3, 7]);
    assert_eq!(apply([5, 3, 7], CHOICE_ABSTAIN, 1), [5, 3, 8]);
}

#[test]
fn choice_constants_name_the_buckets_in_order() {
    assert_eq!(apply([10, 20, 30], CHOICE_YES, 4), [14, 20, 30]);
    assert_eq!(apply([10, 20, 30], CHOICE_NO, 4), [10, 24, 30]);
    assert_eq!(apply([10, 20, 30], CHOICE_ABSTAIN, 4), [10, 20, 34]);
}

#[test]
fn valid_vote_changes_exactly_one_bucket_and_conserves_weight() {
    let before = [11u64, 22, 33];
    for choice in 1u64..=3 {
        let after = apply(before, choice, 9);
        for bucket in 0..3 {
            if bucket as u64 + 1 == choice {
                assert_eq!(after[bucket], before[bucket] + 9);
            } else {
                assert_eq!(after[bucket], before[bucket]);
            }
        }
        let sum_before: u64 = before.iter().sum();
        let sum_after: u64 = after.iter().sum();
        assert_eq!(sum_after, sum_before + 9);
    }
}

#[test]
fn invalid_choice_leaves_tally_unchanged() {
    assert_eq!(apply([5, 3, 1], 0, 100), [5, 3, 1]);
    assert_eq!(apply([5, 3, 1], 4, 100), [5, 3, 1]);
    assert_eq!(apply([5, 3, 1], u64::MAX, 100), [5, 3, 1]);
}

#[test]
fn invalid_choice_is_dropped_even_when_the_weight_would_not_fit() {
    assert_eq!(apply([u64::MAX, u64::MAX, u64::MAX], 7, u64::MAX), [u64::MAX; 3]);
}

#[test]
fn zero_weight_changes_nothing() {
    assert_eq!(apply([5, 3, 1], 1, 0), [5, 3, 1]);
    assert_eq!(apply([5, 3, 1], 2, 0), [5, 3, 1]);
    assert_eq!(apply([5, 3, 1], 3, 0), [5, 3, 1]);
}

#[test]
fn bucket_may_reach_the_largest_count() {
    assert_eq!(apply([u64::MAX - 5, 0, 0], 1, 5), [u64::MAX, 0, 0]);
    assert_eq!(apply([u64::MAX, 0, u64::MAX], 2, u64::MAX), [u64::MAX, u64::MAX, u64::MAX]);
}

#[test]
fn mask_selects_weight_or_zero() {
    assert_eq!(mask(true, 42), 42);
    assert_eq!(mask(false, 42), 0);
    assert_eq!(mask(true, 0), 0);
    assert_eq!(mask(true, u64::MAX), u64::MAX);
    assert_eq!(mask(false, u64::MAX), 0);
}

#[test]
fn batch_adds_value_times_weight_of_both_ballots() {
    let ballots = [Ballot { value: 1, weight: 5 }, Ballot { value: 0, weight: 7 }];
    assert_eq!(tally_batch(0, ballots), 5);
    let ballots = [Ballot { value: 1, weight: 5 }, Ballot { value: 1, weight: 7 }];
    assert_eq!(tally_batch(10, ballots), 22);
    let ballots = [Ballot { value: 3, weight: 4 }, Ballot { value: 2, weight: 6 }];
    assert_eq!(tally_batch(100, ballots), 124);
    assert_eq!(BATCH, 2);
}

#[test]
fn batch_of_zero_ballots_keeps_the_total() {
    let ballots = [Ballot { value: 0, weight: u64::MAX }, Ballot { value: u64::MAX, weight: 0 }];
    assert_eq!(tally_batch(u64::MAX, ballots), u64::MAX);
}

#[test]
fn batch_total_may_reach_the_largest_count() {
    let ballots = [Ballot { value: 1, weight: u64::MAX - 10 }, Ballot { value: 2, weight: 3 }];
    assert_eq!(tally_batch(4, ballots), u64::MAX);
}
