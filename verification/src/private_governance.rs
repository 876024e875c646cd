//! The tally accumulator: adds one weighted vote to a three-bucket tally.
//!
//! The accumulator is written the way a circuit over encrypted values has to
//! be: it never branches on the choice. Every bucket receives an increment on
//! every call; the increment is the weight multiplied by a zero-or-one mask.

use vstd::prelude::*;

verus! {

/// Choice value of a Yes vote.
pub const CHOICE_YES: u64 = 1;

/// Choice value of a No vote.
pub const CHOICE_NO: u64 = 2;

/// Choice value of an Abstain vote.
pub const CHOICE_ABSTAIN: u64 = 3;

/// The vote counts so far. Index 0 counts Yes, 1 counts No, 2 counts Abstain.
#[derive(Clone, Copy, Debug)]
pub struct CurrentTally {
    pub counts: [u64; 3],
}

/// One ballot: the chosen outcome (1 = Yes, 2 = No, 3 = Abstain) and the
/// weight it carries.
#[derive(Clone, Copy, Debug)]
pub struct UserVote {
    pub choice: u64,
    pub weight: u64,
}

/// The vote counts after one ballot has been added.
#[derive(Clone, Copy, Debug)]
pub struct UpdateResult {
    pub new_counts: [u64; 3],
}

impl View for CurrentTally {
    type V = Seq<nat>;

    open spec fn view(&self) -> Seq<nat> {
        Seq::new(3, |i: int| self.counts[i] as nat)
    }
}

impl View for UpdateResult {
    type V = Seq<nat>;

    open spec fn view(&self) -> Seq<nat> {
        Seq::new(3, |i: int| self.new_counts[i] as nat)
    }
}

/// Whether `choice` names one of the three outcomes.
pub open spec fn valid_choice(choice: int) -> bool {
    1 <= choice <= 3
}

/// The weight that a vote adds to the bucket with index `bucket`: the whole
/// weight for the bucket that the choice names, nothing for any other.
pub open spec fn masked_increment(choice: int, weight: nat, bucket: int) -> nat {
    if choice == bucket + 1 {
        weight
    } else {
        0
    }
}

/// The tally that results from adding one vote to `counts`.
pub open spec fn accumulate(counts: Seq<nat>, choice: int, weight: nat) -> Seq<nat> {
    Seq::new(3, |i: int| counts[i] + masked_increment(choice, weight, i))
}

/// The total weight held by a three-bucket tally.
pub open spec fn tally_sum(counts: Seq<nat>) -> nat {
    counts[0] + counts[1] + counts[2]
}

/// Whether every bucket of `counts` still fits a `u64` after the vote.
pub open spec fn fits(counts: Seq<nat>, choice: int, weight: nat) -> bool {
    forall|i: int| 0 <= i < 3 ==> #[trigger] accumulate(counts, choice, weight)[i] <= u64::MAX
}

/// Selects `weight` when `flag` is set and zero otherwise, by multiplication
/// with a zero-or-one mask rather than by a branch on the weight.
pub fn mask(flag: bool, weight: u64) -> (r: u64)
    ensures
        r == if flag { weight } else { 0 },
{
    let bit = flag as u64;
    assert(bit * weight == if flag { weight as int } else { 0 }) by (nonlinear_arith)
        requires
            bit == if flag { 1int } else { 0int },
    ;
    bit * weight
}

/// Adds one vote to the tally.
///
/// All three predicates and all three masked increments are computed on
/// every call, and every bucket is written. A choice outside 1..=3 matches
/// no predicate, so the tally comes back unchanged.
pub fn cast_vote(tally: CurrentTally, vote: UserVote) -> (result: UpdateResult)
    requires
        fits(tally@, vote.choice as int, vote.weight as nat),
    ensures
        result@ == accumulate(tally@, vote.choice as int, vote.weight as nat),
        forall|i: int|
            0 <= i < 3 ==> #[trigger] result.new_counts[i] == tally.counts[i] + masked_increment(
                vote.choice as int,
                vote.weight as nat,
                i,
            ),
{
    let is_yes = vote.choice == CHOICE_YES;
    let is_no = vote.choice == CHOICE_NO;
    let is_abstain = vote.choice == CHOICE_ABSTAIN;

    let add_yes = mask(is_yes, vote.weight);
    let add_no = mask(is_no, vote.weight);
    let add_abs = mask(is_abstain, vote.weight);

    proof {
        let after = accumulate(tally@, vote.choice as int, vote.weight as nat);
        assert(after[0] <= u64::MAX && after[1] <= u64::MAX && after[2] <= u64::MAX);
    }
    let new_yes = tally.counts[0] + add_yes;
    let new_no = tally.counts[1] + add_no;
    let new_abs = tally.counts[2] + add_abs;

    let result = UpdateResult { new_counts: [new_yes, new_no, new_abs] };
    assert(result@ =~= accumulate(tally@, vote.choice as int, vote.weight as nat));
    result
}

/// A vote for one of the three outcomes raises exactly the bucket it names by
/// its weight, leaves the other two buckets as they were, and raises the
/// total by the weight.
pub proof fn lemma_valid_vote_moves_one_bucket(counts: Seq<nat>, choice: int, weight: nat)
    requires
        counts.len() == 3,
        valid_choice(choice),
    ensures
        accumulate(counts, choice, weight).len() == 3,
        accumulate(counts, choice, weight)[choice - 1] == counts[choice - 1] + weight,
        forall|i: int|
            0 <= i < 3 && i != choice - 1 ==> #[trigger] accumulate(counts, choice, weight)[i]
                == counts[i],
        tally_sum(accumulate(counts, choice, weight)) == tally_sum(counts) + weight,
{
}

/// A vote whose choice names no outcome leaves the tally as it was.
pub proof fn lemma_invalid_vote_changes_nothing(counts: Seq<nat>, choice: int, weight: nat)
    requires
        counts.len() == 3,
        !valid_choice(choice),
    ensures
        accumulate(counts, choice, weight) == counts,
{
    assert(accumulate(counts, choice, weight) =~= counts);
}

/// Number of ballots that one call of the batch accumulator takes. The count
/// is fixed because a circuit has to know its number of steps in advance.
pub const BATCH: usize = 2;

/// One ballot of the batch variant: a value and the weight it is counted
/// with.
#[derive(Clone, Copy, Debug)]
pub struct Ballot {
    pub value: u64,
    pub weight: u64,
}

/// The weighted sum of the first `n` ballots: each value times its weight.
pub open spec fn weighted_sum(ballots: Seq<Ballot>, n: nat) -> int
    decreases n,
{
    if n == 0 {
        0
    } else {
        weighted_sum(ballots, (n - 1) as nat) + ballots[n - 1].value * ballots[n - 1].weight
    }
}

/// A longer prefix of the ballots never has the smaller weighted sum.
proof fn lemma_weighted_sum_grows(ballots: Seq<Ballot>, n: nat, m: nat)
    requires
        n <= m,
    ensures
        weighted_sum(ballots, n) <= weighted_sum(ballots, m),
    decreases m,
{
    if n < m {
        lemma_weighted_sum_grows(ballots, n, (m - 1) as nat);
        assert(ballots[m - 1].value * ballots[m - 1].weight >= 0) by (nonlinear_arith);
    }
}

/// The weighted sum of a whole batch.
pub open spec fn batch_sum(ballots: [Ballot; 2]) -> int {
    ballots[0].value * ballots[0].weight + ballots[1].value * ballots[1].weight
}

/// Adds the weighted sum of one batch of ballots to a running total.
///
/// Every ballot of the batch is counted, whatever it holds: there is no
/// condition on the ballots, only a fixed number of multiply-and-add steps.
pub fn tally_batch(running: u64, ballots: [Ballot; 2]) -> (total: u64)
    requires
        running + batch_sum(ballots) <= u64::MAX,
    ensures
        total == running + batch_sum(ballots),
{
    assert(batch_sum(ballots) == weighted_sum(ballots@, 2)) by {
        reveal_with_fuel(weighted_sum, 3);
    }
    let mut total = running;
    let mut i: usize = 0;
    while i < BATCH
        invariant
            i <= 2,
            total == running + weighted_sum(ballots@, i as nat),
            running + weighted_sum(ballots@, 2) <= u64::MAX,
        decreases 2 - i,
    {
        let ballot = ballots[i];
        proof {
            lemma_weighted_sum_grows(ballots@, (i + 1) as nat, 2);
        }
        total = total + ballot.value * ballot.weight;
        i += 1;
    }
    total
}

} // verus!
