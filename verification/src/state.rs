//! The durable record of a poll and the values that the handlers exchange
//! with their caller.

use vstd::prelude::*;

verus! {

/// An account address or a public key.
pub type Key = [u8; 32];

/// The ciphertext of one tally bucket.
pub type Ciphertext = [u8; 32];

/// Whether a computation on the poll's tally is outstanding.
#[derive(Clone, Copy, Debug, PartialEq, Eq, Structural)]
pub enum ComputationLock {
    /// No computation is outstanding; a vote may be submitted.
    Idle,
    /// The computation with this identifier has been dispatched and its
    /// result has not arrived yet.
    Pending(u64),
}

/// The durable record of one poll.
#[derive(Clone, Copy, Debug, PartialEq, Eq)]
pub struct PollAccount {
    /// Who may close the poll.
    pub authority: Key,
    /// The proposal that the poll decides.
    pub proposal_id: u64,
    /// The encrypted counts for Yes, No and Abstain, in this order.
    pub encrypted_tally: [Ciphertext; 3],
    /// Whether the poll still accepts votes.
    pub is_active: bool,
    /// The computation, if any, whose result the poll is waiting for.
    pub computation_lock: ComputationLock,
}

/// What creating a poll works on: the record to fill and the creator.
#[derive(Clone, Copy, Debug, PartialEq, Eq)]
pub struct CreatePoll {
    pub poll: PollAccount,
    pub authority: Key,
}

/// What submitting a vote works on.
#[derive(Clone, Copy, Debug, PartialEq, Eq)]
pub struct CastVote {
    pub poll: PollAccount,
}

/// What applying a computation result works on: the poll and its address.
#[derive(Clone, Copy, Debug, PartialEq, Eq)]
pub struct CastVoteCallback {
    pub poll: PollAccount,
    pub poll_key: Key,
}

/// What closing a poll works on: the poll and the signer of the request.
#[derive(Clone, Copy, Debug, PartialEq, Eq)]
pub struct ClosePoll {
    pub poll: PollAccount,
    pub authority: Key,
}

/// Announces that a vote has been merged into the tally of `poll`.
#[derive(Clone, Copy, Debug, PartialEq, Eq)]
pub struct VoteCastEvent {
    pub poll: Key,
    pub timestamp: i64,
}

/// The tally that a computation produced.
#[derive(Clone, Copy, Debug, PartialEq, Eq)]
pub struct TallyOutput {
    pub new_tally: [Ciphertext; 3],
}

/// What the cluster says became of a computation.
#[derive(Clone, Copy, Debug, PartialEq, Eq)]
pub enum ClusterReport {
    /// The computation ran; this is its output.
    Completed(TallyOutput),
    /// The cluster gave the computation up.
    Aborted,
}

/// A completion message for one computation.
#[derive(Clone, Copy, Debug, PartialEq, Eq)]
pub struct CallbackPayload {
    /// The computation that the message is about.
    pub computation_id: u64,
    /// Whether the signature on the message is that of the expected cluster
    /// for this computation.
    pub signature_valid: bool,
    /// What the cluster reports.
    pub report: ClusterReport,
}

/// How the cluster is to hand the result back.
#[derive(Clone, Copy, Debug, PartialEq, Eq, Structural)]
pub struct Continuation {
    /// The identifier that the completion message will carry.
    pub computation_id: u64,
    /// Number of transactions that deliver the result.
    pub num_callback_txs: u8,
    /// Priority fee offered for the delivery, per compute unit.
    pub cu_price_micro: u64,
}

/// Whether every byte of every bucket of `tally` is zero.
pub open spec fn is_zero_tally(tally: [Ciphertext; 3]) -> bool {
    forall|i: int, j: int| 0 <= i < 3 && 0 <= j < 32 ==> #[trigger] tally[i][j] == 0
}

/// Whether `poll` is a poll as `create_poll` sets it up: open for votes,
/// nothing outstanding, every bucket holding the all-zero ciphertext.
pub open spec fn is_fresh_poll(poll: PollAccount, authority: Key, proposal_id: u64) -> bool {
    &&& poll.authority == authority
    &&& poll.proposal_id == proposal_id
    &&& is_zero_tally(poll.encrypted_tally)
    &&& poll.is_active
    &&& poll.computation_lock == ComputationLock::Idle
}

/// Whether two keys are the same, byte for byte.
pub fn same_key(a: &Key, b: &Key) -> (same: bool)
    ensures
        same == (*a == *b),
{
    let mut i: usize = 0;
    while i < 32
        invariant
            i <= 32,
            forall|j: int| 0 <= j < i ==> a[j] == b[j],
        decreases 32 - i,
    {
        if a[i] != b[i] {
            return false;
        }
        i += 1;
    }
    assert(*a =~= *b);
    true
}

} // verus!
