//! Why a call on a lock is refused.

use vstd::prelude::*;

verus! {

/// The reason a call was refused. Every refusal is final for the lock and the
/// arguments that caused it: repeating the call gives the same refusal.
#[derive(Clone, Copy, Debug, PartialEq, Eq, Structural)]
pub enum ErrorCode {
    /// The lock has already reached its quorum; no further approval counts.
    Approved,
    /// The lock has been vetoed; no approval counts any more.
    Rejected,
    /// This identity has already approved the lock.
    Duplicate,
    /// The proposal identifier is empty or longer than 64 bytes.
    InvalidProposalId,
    /// The quorum is zero or larger than the 32 approvals a lock can hold.
    InvalidQuorum,
}

impl ErrorCode {
    /// The text shown to a user for this refusal.
    pub open spec fn message_text(self) -> Seq<char> {
        match self {
            ErrorCode::Approved => "Already approved"@,
            ErrorCode::Rejected => "Already rejected"@,
            ErrorCode::Duplicate => "Duplicate approval"@,
            ErrorCode::InvalidProposalId => "Invalid proposal id"@,
            ErrorCode::InvalidQuorum => "Invalid quorum"@,
        }
    }

    /// The text shown to a user for this refusal.
    pub fn message(&self) -> (text: &'static str)
        ensures
            text@ == self.message_text(),
    {
        match self {
            ErrorCode::Approved => "Already approved",
            ErrorCode::Rejected => "Already rejected",
            ErrorCode::Duplicate => "Duplicate approval",
            ErrorCode::InvalidProposalId => "Invalid proposal id",
            ErrorCode::InvalidQuorum => "Invalid quorum",
        }
    }
}

} // verus!
