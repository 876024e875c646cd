//! The failures that the poll lifecycle reports.

use vstd::prelude::*;

verus! {

/// Why a vote submission or a request to close a poll was turned down.
/// None of these changes the poll.
#[derive(Clone, Copy, Debug, PartialEq, Eq, Structural)]
pub enum VotingError {
    /// The poll no longer accepts votes.
    PollClosed,
    /// An earlier vote of this poll is still being aggregated; try again
    /// once its result has arrived.
    ComputationInFlight,
    /// The stored tally does not have the shape that the accumulator takes.
    ConfigMismatch,
    /// The caller is not the authority of the poll.
    Unauthorized,
}

/// Why the result of a computation was not applied.
#[derive(Clone, Copy, Debug, PartialEq, Eq, Structural)]
pub enum ErrorCode {
    /// The result could not be authenticated, or the cluster gave the
    /// computation up.
    AbortedComputation,
    /// No cluster is assigned to run computations.
    ClusterNotSet,
}

impl VotingError {
    /// The text shown to a caller for this error.
    pub open spec fn spec_message(self) -> Seq<char> {
        match self {
            VotingError::PollClosed => "Poll is closed"@,
            VotingError::ComputationInFlight => "A computation is in flight"@,
            VotingError::ConfigMismatch => "Tally shape does not match the circuit"@,
            VotingError::Unauthorized => "Signer is not the poll authority"@,
        }
    }

    /// The text shown to a caller for this error.
    pub fn message(&self) -> (text: &'static str)
        ensures
            text@ == self.spec_message(),
    {
        match self {
            VotingError::PollClosed => "Poll is closed",
            VotingError::ComputationInFlight => "A computation is in flight",
            VotingError::ConfigMismatch => "Tally shape does not match the circuit",
            VotingError::Unauthorized => "Signer is not the poll authority",
        }
    }
}

impl ErrorCode {
    /// The text shown to a caller for this error.
    pub open spec fn spec_message(self) -> Seq<char> {
        match self {
            ErrorCode::AbortedComputation => "Aborted"@,
            ErrorCode::ClusterNotSet => "No Cluster"@,
        }
    }

    /// The text shown to a caller for this error.
    pub fn message(&self) -> (text: &'static str)
        ensures
            text@ == self.spec_message(),
    {
        match self {
            ErrorCode::AbortedComputation => "Aborted",
            ErrorCode::ClusterNotSet => "No Cluster",
        }
    }
}

} // verus!
