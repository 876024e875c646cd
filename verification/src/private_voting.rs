//! The poll lifecycle: creating a poll, dispatching the aggregation of a
//! vote, applying the result that comes back, and closing the poll.
//!
//! Every handler works on plain values. Whoever calls it stores the poll,
//! forwards the request to the cluster, checks the signature on the
//! completion message and emits the notifications.

use crate::arguments::{build_args, list_args, ordered_args};
use crate::errors::{ErrorCode, VotingError};
use crate::state::{
    is_fresh_poll, same_key, CallbackPayload, CastVote, CastVoteCallback, Ciphertext,
    ClosePoll, ClusterReport, ComputationLock, Continuation, CreatePoll, Key, PollAccount,
    VoteCastEvent,
};
use arcium_anchor::prelude::ArgumentList;
use vstd::prelude::*;

verus! {

/// Number of transactions in which the cluster delivers a result.
pub const CALLBACK_TXS: u8 = 1;

/// Priority fee offered for the delivery of a result.
pub const CALLBACK_CU_PRICE: u64 = 0;

/// What is handed to the cluster for one vote.
#[derive(Debug)]
pub struct ComputationRequest {
    /// Correlates the eventual completion message with this request.
    pub computation_id: u64,
    /// Identifies the circuit to run.
    pub comp_def_offset: u32,
    /// The inputs of the circuit, in its declared order.
    pub ordered_args: ArgumentList,
    /// How the result is to be handed back.
    pub continuation: Continuation,
}

/// The identifier under which the circuit with this name is registered.
pub uninterp spec fn circuit_offset(name: Seq<char>) -> u32;

/// `arcium_anchor::comp_def_offset`: the identifier of a circuit, which
/// depends on its name alone (the leading bytes of a digest of the name).
#[verifier::external_body]
fn offset_of_circuit(name: &str) -> (offset: u32)
    ensures
        offset == circuit_offset(name@),
{
    arcium_anchor::comp_def_offset(name)
}

/// The identifier of the tally accumulator.
pub fn comp_def_offset_vote() -> (offset: u32)
    ensures
        offset == circuit_offset("cast_vote"@),
{
    offset_of_circuit("cast_vote")
}

/// How the result of the computation `computation_id` is handed back.
pub open spec fn continuation_for(computation_id: u64) -> Continuation {
    Continuation {
        computation_id,
        num_callback_txs: CALLBACK_TXS,
        cu_price_micro: CALLBACK_CU_PRICE,
    }
}

/// What becomes of a poll when the computation `computation_id` is
/// submitted: the poll with its lock taken, or the reason for the refusal.
pub open spec fn submit_outcome(poll: PollAccount, computation_id: u64) -> Result<
    PollAccount,
    VotingError,
> {
    if !poll.is_active {
        Err(VotingError::PollClosed)
    } else if poll.computation_lock is Pending {
        Err(VotingError::ComputationInFlight)
    } else {
        Ok(PollAccount { computation_lock: ComputationLock::Pending(computation_id), ..poll })
    }
}

/// What a completion message does to a poll.
pub enum CallbackEffect {
    /// The new tally replaces the old one and the lock is released.
    Applied,
    /// The lock is released and the tally stays.
    Aborted,
    /// The message is about no outstanding computation; nothing changes.
    Stale,
}

/// What the completion message `payload` does to `poll`.
pub open spec fn callback_effect(poll: PollAccount, payload: CallbackPayload) -> CallbackEffect {
    if poll.computation_lock != ComputationLock::Pending(payload.computation_id) {
        CallbackEffect::Stale
    } else if payload.signature_valid && payload.report is Completed {
        CallbackEffect::Applied
    } else {
        CallbackEffect::Aborted
    }
}

/// The poll after the completion message `payload` has been handled.
pub open spec fn after_callback(poll: PollAccount, payload: CallbackPayload) -> PollAccount {
    match callback_effect(poll, payload) {
        CallbackEffect::Stale => poll,
        CallbackEffect::Aborted => PollAccount { computation_lock: ComputationLock::Idle, ..poll },
        CallbackEffect::Applied => PollAccount {
            encrypted_tally: payload.report->Completed_0.new_tally,
            computation_lock: ComputationLock::Idle,
            ..poll
        },
    }
}

/// What becomes of a poll when `signer` asks to close it: the closed poll,
/// or the reason for the refusal.
pub open spec fn close_outcome(poll: PollAccount, signer: Key) -> Result<PollAccount, VotingError> {
    if poll.authority != signer {
        Err(VotingError::Unauthorized)
    } else if !poll.is_active {
        Err(VotingError::PollClosed)
    } else {
        Ok(PollAccount { is_active: false, ..poll })
    }
}

/// Sets up a poll for `proposal_id` under the authority of its creator.
pub fn create_poll(ctx: &mut CreatePoll, proposal_id: u64)
    ensures
        is_fresh_poll(final(ctx).poll, old(ctx).authority, proposal_id),
        final(ctx).authority == old(ctx).authority,
{
    let zero: Ciphertext = [0u8;32];
    ctx.poll.authority = ctx.authority;
    ctx.poll.proposal_id = proposal_id;
    ctx.poll.encrypted_tally = [zero, zero, zero];
    ctx.poll.is_active = true;
    ctx.poll.computation_lock = ComputationLock::Idle;
}

/// Takes the poll's lock for the computation `computation_id` and hands
/// back the request to forward to the cluster.
///
/// A closed poll refuses with `PollClosed`, a poll that is waiting for a
/// result with `ComputationInFlight`; neither changes the poll, and nothing
/// is to be forwarded.
pub fn submit(
    poll: &mut PollAccount,
    computation_id: u64,
    comp_def_offset: u32,
    ordered_args: ArgumentList,
    continuation: Continuation,
) -> (r: Result<ComputationRequest, VotingError>)
    ensures
        match submit_outcome(*old(poll), computation_id) {
            Ok(locked) => {
                &&& *final(poll) == locked
                &&& r matches Ok(request)
                &&& request.computation_id == computation_id
                &&& request.comp_def_offset == comp_def_offset
                &&& request.ordered_args == ordered_args
                &&& request.continuation == continuation
            },
            Err(e) => {
                &&& *final(poll) == *old(poll)
                &&& r matches Err(got)
                &&& got == e
            },
        },
{
    if !poll.is_active {
        return Err(VotingError::PollClosed);
    }
    match poll.computation_lock {
        ComputationLock::Pending(_) => {
            return Err(VotingError::ComputationInFlight);
        },
        ComputationLock::Idle => {},
    }
    poll.computation_lock = ComputationLock::Pending(computation_id);
    Ok(ComputationRequest { computation_id, comp_def_offset, ordered_args, continuation })
}

/// Submits one encrypted vote for aggregation.
///
/// The request carries the client's key and nonce, the poll's current tally
/// and the vote, in the order the accumulator declares, and asks for the
/// result to come back under `computation_offset`. On success the poll is
/// locked until that result has been handled.
pub fn cast_vote(
    ctx: &mut CastVote,
    computation_offset: u64,
    encrypted_choice: Ciphertext,
    encrypted_weight: Ciphertext,
    pubkey: Key,
    nonce: u128,
) -> (r: Result<ComputationRequest, VotingError>)
    ensures
        match submit_outcome(old(ctx).poll, computation_offset) {
            Ok(locked) => {
                &&& final(ctx).poll == locked
                &&& r matches Ok(request)
                &&& request.computation_id == computation_offset
                &&& request.comp_def_offset == circuit_offset("cast_vote"@)
                &&& list_args(request.ordered_args) == ordered_args(
                    pubkey,
                    nonce,
                    old(ctx).poll.encrypted_tally@,
                    encrypted_choice,
                    encrypted_weight,
                )
                &&& request.continuation == continuation_for(computation_offset)
            },
            Err(e) => {
                &&& *final(ctx) == *old(ctx)
                &&& r matches Err(got)
                &&& got == e
            },
        },
{
    if !ctx.poll.is_active {
        return Err(VotingError::PollClosed);
    }
    let tally = ctx.poll.encrypted_tally;
    let args = match build_args(
        tally.as_slice(),
        encrypted_choice,
        encrypted_weight,
        pubkey,
        nonce,
    ) {
        Ok(args) => args,
        Err(e) => {
            return Err(e);
        },
    };
    let continuation = Continuation {
        computation_id: computation_offset,
        num_callback_txs: CALLBACK_TXS,
        cu_price_micro: CALLBACK_CU_PRICE,
    };
    submit(&mut ctx.poll, computation_offset, comp_def_offset_vote(), args, continuation)
}

/// Handles the completion message of a computation.
///
/// A message about the computation that the poll is waiting for releases the
/// lock. If its signature is valid and the cluster reports an output, the
/// output becomes the poll's tally and the event to announce is returned;
/// otherwise the tally stays and the answer is `AbortedComputation`. A
/// message about any other computation changes nothing and is no error.
pub fn cast_vote_callback(
    ctx: &mut CastVoteCallback,
    output: CallbackPayload,
    timestamp: i64,
) -> (r: Result<Option<VoteCastEvent>, ErrorCode>)
    ensures
        final(ctx).poll == after_callback(old(ctx).poll, output),
        final(ctx).poll_key == old(ctx).poll_key,
        match callback_effect(old(ctx).poll, output) {
            CallbackEffect::Applied => r == Ok::<Option<VoteCastEvent>, ErrorCode>(
                Some(VoteCastEvent { poll: old(ctx).poll_key, timestamp }),
            ),
            CallbackEffect::Aborted => r == Err::<Option<VoteCastEvent>, ErrorCode>(
                ErrorCode::AbortedComputation,
            ),
            CallbackEffect::Stale => r == Ok::<Option<VoteCastEvent>, ErrorCode>(None),
        },
{
    let awaited = match ctx.poll.computation_lock {
        ComputationLock::Pending(id) => id == output.computation_id,
        ComputationLock::Idle => false,
    };
    if !awaited {
        return Ok(None);
    }
    ctx.poll.computation_lock = ComputationLock::Idle;
    if !output.signature_valid {
        return Err(ErrorCode::AbortedComputation);
    }
    match output.report {
        ClusterReport::Completed(o) => {
            ctx.poll.encrypted_tally = o.new_tally;
            Ok(Some(VoteCastEvent { poll: ctx.poll_key, timestamp }))
        },
        ClusterReport::Aborted => Err(ErrorCode::AbortedComputation),
    }
}

/// Closes the poll to new votes.
///
/// Only the poll's authority may close it (`Unauthorized` otherwise), and
/// only once (`PollClosed` after that). A computation that is outstanding
/// stays outstanding: its result is still applied when it arrives.
pub fn close_poll(ctx: &mut ClosePoll) -> (r: Result<(), VotingError>)
    ensures
        final(ctx).authority == old(ctx).authority,
        match close_outcome(old(ctx).poll, old(ctx).authority) {
            Ok(closed) => final(ctx).poll == closed && r is Ok,
            Err(e) => final(ctx).poll == old(ctx).poll && r == Err::<(), VotingError>(e),
        },
{
    if !same_key(&ctx.poll.authority, &ctx.authority) {
        return Err(VotingError::Unauthorized);
    }
    if !ctx.poll.is_active {
        return Err(VotingError::PollClosed);
    }
    ctx.poll.is_active = false;
    Ok(())
}

/// After a vote has been submitted, a second submission is refused with
/// `ComputationInFlight` for as long as the first is outstanding, and leaves
/// the poll, its tally included, as it is.
pub proof fn lemma_second_submission_refused(poll: PollAccount, first: u64, second: u64)
    requires
        submit_outcome(poll, first) is Ok,
    ensures
        submit_outcome(submit_outcome(poll, first)->Ok_0, second) == Err::<
            PollAccount,
            VotingError,
        >(VotingError::ComputationInFlight),
        submit_outcome(poll, first)->Ok_0.encrypted_tally == poll.encrypted_tally,
{
}

/// A completion message for the awaited computation whose signature is not
/// valid is answered with an abort: the lock is released and the tally is
/// not touched.
pub proof fn lemma_bad_signature_releases_lock(poll: PollAccount, payload: CallbackPayload)
    requires
        poll.computation_lock == ComputationLock::Pending(payload.computation_id),
        !payload.signature_valid,
    ensures
        callback_effect(poll, payload) == CallbackEffect::Aborted,
        after_callback(poll, payload).computation_lock == ComputationLock::Idle,
        after_callback(poll, payload).encrypted_tally == poll.encrypted_tally,
{
}

/// Handling a completion message a second time changes nothing: once a
/// message has been handled, the same message is stale.
pub proof fn lemma_duplicate_callback_is_noop(poll: PollAccount, payload: CallbackPayload)
    ensures
        callback_effect(after_callback(poll, payload), payload) == CallbackEffect::Stale,
        after_callback(after_callback(poll, payload), payload) == after_callback(poll, payload),
{
}

/// Closing a poll that is waiting for a result turns new votes away with
/// `PollClosed`, yet the awaited result, once it arrives with a valid
/// signature, still becomes the tally and releases the lock.
pub proof fn lemma_close_keeps_pending_result(
    poll: PollAccount,
    signer: Key,
    next_id: u64,
    payload: CallbackPayload,
)
    requires
        close_outcome(poll, signer) is Ok,
        poll.computation_lock == ComputationLock::Pending(payload.computation_id),
        payload.signature_valid,
        payload.report is Completed,
    ensures
        submit_outcome(close_outcome(poll, signer)->Ok_0, next_id) == Err::<
            PollAccount,
            VotingError,
        >(VotingError::PollClosed),
        callback_effect(close_outcome(poll, signer)->Ok_0, payload) == CallbackEffect::Applied,
        after_callback(close_outcome(poll, signer)->Ok_0, payload).encrypted_tally
            == payload.report->Completed_0.new_tally,
        after_callback(close_outcome(poll, signer)->Ok_0, payload).computation_lock
            == ComputationLock::Idle,
        !after_callback(close_outcome(poll, signer)->Ok_0, payload).is_active,
{
}

/// No step reopens a poll: once closed, it stays closed through every
/// submission, completion message and request to close.
pub proof fn lemma_closed_stays_closed(
    poll: PollAccount,
    computation_id: u64,
    payload: CallbackPayload,
    signer: Key,
)
    requires
        !poll.is_active,
    ensures
        submit_outcome(poll, computation_id) is Err,
        !after_callback(poll, payload).is_active,
        close_outcome(poll, signer) is Err,
{
}

} // verus!
