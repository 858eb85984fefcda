//! The mathematical model of a lock: its state, and what each call does to it.
//!
//! Everything here is ghost code. The executable lock is specified by these
//! functions, and the laws of the lock are proved about them.

use vstd::prelude::*;
use vstd::utf8::encode_utf8;
use crate::error::ErrorCode;
use crate::identity::Identity;

verus! {

/// Longest proposal identifier, in bytes of its UTF-8 encoding.
pub const MAX_PROPOSAL_ID_LEN: usize = 64;

/// Most approvals a lock can hold, and hence the largest quorum.
pub const MAX_APPROVALS: usize = 32;

/// Length of a proposal identifier in bytes of its UTF-8 encoding.
pub open spec fn proposal_id_len(proposal_id: Seq<char>) -> nat {
    encode_utf8(proposal_id).len()
}

/// A proposal identifier is valid when it is not empty and at most 64 bytes long.
pub open spec fn valid_proposal_id(proposal_id: Seq<char>) -> bool {
    1 <= proposal_id_len(proposal_id) <= MAX_PROPOSAL_ID_LEN
}

/// A quorum is valid when it asks for at least one and at most 32 approvals.
pub open spec fn valid_quorum(quorum: nat) -> bool {
    1 <= quorum <= MAX_APPROVALS
}

/// The state of a lock.
#[verifier::ext_equal]
pub struct LockState {
    /// Identifier of the governed proposal.
    pub proposal_id: Seq<char>,
    /// Number of distinct approvals that approve the proposal.
    pub quorum: nat,
    /// Whether the quorum has been reached.
    pub approved: bool,
    /// Whether the lock has been vetoed.
    pub rejected: bool,
    /// The identities that have approved, in the order in which they did.
    pub approvals: Seq<Identity>,
}

/// The state of a lock that has just been created.
pub open spec fn initial_state(proposal_id: Seq<char>, quorum: nat) -> LockState {
    LockState {
        proposal_id,
        quorum,
        approved: false,
        rejected: false,
        approvals: Seq::<Identity>::empty(),
    }
}

/// Why no lock can be created with this identifier and quorum, if none can.
/// The identifier is looked at first.
pub open spec fn creation_refusal(proposal_id: Seq<char>, quorum: nat) -> Option<ErrorCode> {
    if !valid_proposal_id(proposal_id) {
        Some(ErrorCode::InvalidProposalId)
    } else if !valid_quorum(quorum) {
        Some(ErrorCode::InvalidQuorum)
    } else {
        None
    }
}

impl LockState {
    /// A lock is open while it is neither approved nor rejected.
    pub open spec fn is_open(self) -> bool {
        !self.approved && !self.rejected
    }

    /// The states that a lock can be in: a valid identifier and quorum, no
    /// identity recorded twice, never more approvals than the quorum, and
    /// approved exactly when the quorum has been reached.
    pub open spec fn wf(self) -> bool {
        &&& valid_proposal_id(self.proposal_id)
        &&& valid_quorum(self.quorum)
        &&& self.approvals.no_duplicates()
        &&& self.approvals.len() <= self.quorum
        &&& (self.approved <==> self.approvals.len() == self.quorum)
    }

    /// What a call to approve answers. That the lock is rejected is said
    /// first, then that it is approved, and only then that the approver has
    /// approved before.
    pub open spec fn approve_outcome(self, approver: Identity) -> Result<(), ErrorCode> {
        if self.rejected {
            Err(ErrorCode::Rejected)
        } else if self.approved {
            Err(ErrorCode::Approved)
        } else if self.approvals.contains(approver) {
            Err(ErrorCode::Duplicate)
        } else {
            Ok(())
        }
    }

    /// The state after a call to approve. A refused call changes nothing. An
    /// accepted one records the approver last, and approves the lock when the
    /// approvals now number at least the quorum.
    pub open spec fn approve(self, approver: Identity) -> LockState {
        if self.approve_outcome(approver) is Ok {
            LockState {
                approved: self.approvals.len() + 1 >= self.quorum,
                approvals: self.approvals.push(approver),
                ..self
            }
        } else {
            self
        }
    }

    /// The state after a veto: rejected, whatever it was before, and nothing
    /// else changed. A veto of an approved lock leaves both flags set.
    pub open spec fn reject(self) -> LockState {
        LockState { rejected: true, ..self }
    }
}

/// A call made on a lock, with the identity that makes it.
pub enum Call {
    /// The identity approves.
    Approve(Identity),
    /// The identity vetoes.
    Reject(Identity),
}

/// The state after one call.
pub open spec fn apply(state: LockState, call: Call) -> LockState {
    match call {
        Call::Approve(approver) => state.approve(approver),
        Call::Reject(_) => state.reject(),
    }
}

/// The state after a sequence of calls, made one after the other.
pub open spec fn run(state: LockState, calls: Seq<Call>) -> LockState
    decreases calls.len(),
{
    if calls.len() == 0 {
        state
    } else {
        apply(run(state, calls.drop_last()), calls.last())
    }
}

/// The calls in which each of `approvers` approves, in their order.
pub open spec fn approvals_by(approvers: Seq<Identity>) -> Seq<Call> {
    approvers.map_values(|approver: Identity| Call::Approve(approver))
}

} // verus!
