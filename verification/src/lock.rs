//! The executable lock and the calls on it.

use vstd::prelude::*;
use crate::error::ErrorCode;
use crate::identity::Identity;
use crate::laws::lemma_approve_preserves_wf;
use crate::state::{creation_refusal, initial_state, LockState};
use crate::state::{MAX_APPROVALS, MAX_PROPOSAL_ID_LEN};

verus! {

/// The lock of one proposal: who has approved it so far, how many approvals it
/// needs, and whether it has been approved or vetoed.
///
/// The fields are private. A lock is made by [`initialize`], or rebuilt from
/// stored fields by [`ExecutionLock::restore`], and changed only by [`approve`]
/// and [`reject`], so every lock satisfies [`LockState::wf`]. The two calls
/// that change a lock take it by exclusive reference: no two of them can
/// overlap on one lock.
#[derive(Debug, Eq)]
pub struct ExecutionLock {
    proposal_id: String,
    approved: bool,
    rejected: bool,
    quorum: u8,
    approvals: Vec<Identity>,
}

impl View for ExecutionLock {
    type V = LockState;

    closed spec fn view(&self) -> LockState {
        LockState {
            proposal_id: self.proposal_id@,
            quorum: self.quorum as nat,
            approved: self.approved,
            rejected: self.rejected,
            approvals: self.approvals@,
        }
    }
}

impl Clone for ExecutionLock {
    /// A second lock in the same state.
    fn clone(&self) -> (copy: ExecutionLock)
        ensures
            copy@ == self@,
    {
        let mut approvals: Vec<Identity> = Vec::new();
        let mut i: usize = 0;
        while i < self.approvals.len()
            invariant
                i <= self.approvals.len(),
                approvals@ == self.approvals@.take(i as int),
            decreases self.approvals.len() - i,
        {
            approvals.push(self.approvals[i]);
            i += 1;
        }
        ExecutionLock {
            proposal_id: self.proposal_id.clone(),
            approved: self.approved,
            rejected: self.rejected,
            quorum: self.quorum,
            approvals,
        }
    }
}

impl PartialEq for ExecutionLock {
    /// Two locks are equal when they are in the same state.
    fn eq(&self, other: &ExecutionLock) -> (same: bool) {
        self.proposal_id == other.proposal_id && self.quorum == other.quorum && self.approved
            == other.approved && self.rejected == other.rejected && same_identities(
            &self.approvals,
            &other.approvals,
        )
    }
}

impl vstd::std_specs::cmp::PartialEqSpecImpl for ExecutionLock {
    open spec fn obeys_eq_spec() -> bool {
        true
    }

    open spec fn eq_spec(&self, other: &ExecutionLock) -> bool {
        self@ == other@
    }
}

/// Creates the lock of a proposal, open and without approvals.
///
/// The identifier must be between 1 and 64 bytes long, else the call is refused
/// with `InvalidProposalId`. The quorum must be between 1 and 32, else the call
/// is refused with `InvalidQuorum`: a quorum of zero would be met before anyone
/// has approved, and a lock holds at most 32 approvals. The identifier is
/// checked first.
pub fn initialize(proposal_id: String, quorum: u8) -> (result: Result<ExecutionLock, ErrorCode>)
    ensures
        (match result {
            Ok(lock) => {
                &&& creation_refusal(proposal_id@, quorum as nat) is None
                &&& lock@ == initial_state(proposal_id@, quorum as nat)
                &&& lock@.wf()
            },
            Err(code) => creation_refusal(proposal_id@, quorum as nat) == Some(code),
        }),
{
    let len: usize = proposal_id.as_str().as_bytes().len();
    if len == 0 || len > MAX_PROPOSAL_ID_LEN {
        return Err(ErrorCode::InvalidProposalId);
    }
    if quorum == 0 || quorum as usize > MAX_APPROVALS {
        return Err(ErrorCode::InvalidQuorum);
    }
    Ok(ExecutionLock { proposal_id, approved: false, rejected: false, quorum, approvals: Vec::new() })
}

/// Records the approval of `approver` on `lock`.
///
/// The call is refused, and the lock left as it was, if the lock has been
/// vetoed (`Rejected`), else if it is already approved (`Approved`), else if
/// `approver` has approved before (`Duplicate`). Otherwise `approver` is
/// recorded after the earlier approvers, and if that brings their number to the
/// quorum, the lock is approved by this same call.
pub fn approve(lock: &mut ExecutionLock, approver: Identity) -> (result: Result<(), ErrorCode>)
    ensures
        result == old(lock)@.approve_outcome(approver),
        final(lock)@ == old(lock)@.approve(approver),
        old(lock)@.wf() ==> final(lock)@.wf(),
{
    if lock.rejected {
        return Err(ErrorCode::Rejected);
    }
    if lock.approved {
        return Err(ErrorCode::Approved);
    }
    if is_recorded(&lock.approvals, &approver) {
        return Err(ErrorCode::Duplicate);
    }
    lock.approvals.push(approver);
    if lock.approvals.len() >= lock.quorum as usize {
        lock.approved = true;
    }
    proof {
        if old(lock)@.wf() {
            lemma_approve_preserves_wf(old(lock)@, approver);
        }
    }
    Ok(())
}

/// Vetoes `lock` on behalf of `caller`.
///
/// A veto is unconditional and always succeeds: the lock is rejected from now
/// on, whatever its state was and whoever the caller is. Vetoing a rejected
/// lock changes nothing. Vetoing an approved lock leaves it both approved and
/// rejected, and [`approve`] then answers `Rejected`.
pub fn reject(lock: &mut ExecutionLock, _caller: Identity) -> (result: Result<(), ErrorCode>)
    ensures
        result == Ok::<(), ErrorCode>(()),
        final(lock)@ == old(lock)@.reject(),
        old(lock)@.wf() ==> final(lock)@.wf(),
{
    lock.rejected = true;
    Ok(())
}

impl ExecutionLock {
    /// The identifier of the governed proposal.
    pub fn proposal_id(&self) -> (proposal_id: &str)
        ensures
            proposal_id@ == self@.proposal_id,
    {
        self.proposal_id.as_str()
    }

    /// The number of distinct approvals that approve the proposal.
    pub fn quorum(&self) -> (quorum: u8)
        ensures
            quorum == self@.quorum,
    {
        self.quorum
    }

    /// Whether the quorum has been reached.
    pub fn approved(&self) -> (approved: bool)
        ensures
            approved == self@.approved,
    {
        self.approved
    }

    /// Whether the lock has been vetoed.
    pub fn rejected(&self) -> (rejected: bool)
        ensures
            rejected == self@.rejected,
    {
        self.rejected
    }

    /// The identities that have approved, in the order in which they did.
    pub fn approvals(&self) -> (approvals: &Vec<Identity>)
        ensures
            approvals@ == self@.approvals,
    {
        &self.approvals
    }

    /// Whether `who` has approved this lock.
    pub fn has_approved(&self, who: &Identity) -> (found: bool)
        ensures
            found == self@.approvals.contains(*who),
    {
        is_recorded(&self.approvals, who)
    }

    /// Rebuilds a lock from the fields of a stored record.
    ///
    /// The record is accepted exactly when it describes a state that a lock
    /// can be in (see [`LockState::wf`]). The fields read from a lock are
    /// accepted, and give that lock back.
    pub fn restore(
        proposal_id: String,
        quorum: u8,
        approved: bool,
        rejected: bool,
        approvals: Vec<Identity>,
    ) -> (lock: Option<ExecutionLock>)
        ensures
            ({
                let record = LockState {
                    proposal_id: proposal_id@,
                    quorum: quorum as nat,
                    approved,
                    rejected,
                    approvals: approvals@,
                };
                match lock {
                    Some(lock) => record.wf() && lock@ == record,
                    None => !record.wf(),
                }
            }),
    {
        let len: usize = proposal_id.as_str().as_bytes().len();
        if len == 0 || len > MAX_PROPOSAL_ID_LEN {
            return None;
        }
        if quorum == 0 || quorum as usize > MAX_APPROVALS {
            return None;
        }
        if approvals.len() > quorum as usize {
            return None;
        }
        if approved != (approvals.len() == quorum as usize) {
            return None;
        }
        if !all_distinct(&approvals) {
            return None;
        }
        Some(ExecutionLock { proposal_id, approved, rejected, quorum, approvals })
    }
}

/// Whether `who` is among `approvals`, by a scan from the front.
fn is_recorded(approvals: &Vec<Identity>, who: &Identity) -> (found: bool)
    ensures
        found == approvals@.contains(*who),
{
    let mut i: usize = 0;
    while i < approvals.len()
        invariant
            i <= approvals.len(),
            forall|k: int| 0 <= k < i ==> approvals@[k] != *who,
        decreases approvals.len() - i,
    {
        if approvals[i] == *who {
            return true;
        }
        i += 1;
    }
    false
}

/// Whether `left` and `right` hold the same identities in the same order.
fn same_identities(left: &Vec<Identity>, right: &Vec<Identity>) -> (same: bool)
    ensures
        same == (left@ == right@),
{
    if left.len() != right.len() {
        return false;
    }
    let mut i: usize = 0;
    while i < left.len()
        invariant
            i <= left.len(),
            left.len() == right.len(),
            forall|k: int| 0 <= k < i ==> left@[k] == right@[k],
        decreases left.len() - i,
    {
        if left[i] != right[i] {
            return false;
        }
        i += 1;
    }
    assert(left@ =~= right@);
    true
}

/// Whether no identity occurs twice in `ids`, by comparing each with those
/// before it.
fn all_distinct(ids: &Vec<Identity>) -> (distinct: bool)
    ensures
        distinct == ids@.no_duplicates(),
{
    let mut i: usize = 0;
    while i < ids.len()
        invariant
            i <= ids.len(),
            forall|a: int, b: int| 0 <= a < b < i ==> ids@[a] != ids@[b],
        decreases ids.len() - i,
    {
        let mut k: usize = 0;
        while k < i
            invariant
                k <= i < ids.len(),
                forall|a: int| 0 <= a < k ==> ids@[a] != ids@[i as int],
            decreases i - k,
        {
            if ids[k] == ids[i] {
                return false;
            }
            k += 1;
        }
        i += 1;
    }
    true
}

} // verus!
