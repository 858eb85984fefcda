//! What holds of every lock, proved about the model of its calls.
//!
//! The executable calls are specified by [`LockState::approve`],
//! [`LockState::reject`] and [`initial_state`], so what is proved here of a
//! sequence of calls in the model holds of the same calls made on a lock.

use vstd::prelude::*;
use crate::error::ErrorCode;
use crate::identity::Identity;
use crate::state::{apply, approvals_by, initial_state, run, valid_proposal_id, valid_quorum};
use crate::state::{Call, LockState, MAX_APPROVALS};

verus! {

/// A lock that has just been created is open, has no approvals, and is in a
/// state that a lock can be in.
pub proof fn lemma_initial_state_wf(proposal_id: Seq<char>, quorum: nat)
    requires
        valid_proposal_id(proposal_id),
        valid_quorum(quorum),
    ensures
        initial_state(proposal_id, quorum).wf(),
        initial_state(proposal_id, quorum).is_open(),
        initial_state(proposal_id, quorum).approvals.len() == 0,
{
}

/// A call to approve keeps a lock among the states that a lock can be in.
pub proof fn lemma_approve_preserves_wf(state: LockState, approver: Identity)
    requires
        state.wf(),
    ensures
        state.approve(approver).wf(),
{
    if state.approve_outcome(approver) is Ok {
        let after = state.approvals.push(approver);
        // Earlier approvers differ from one another as before, and the new
        // one differs from each of them because it was not recorded.
        assert forall|i: int, j: int|
            0 <= i < after.len() && 0 <= j < after.len() && i != j implies after[i]
            != after[j] by {
            if i < state.approvals.len() {
                assert(state.approvals.contains(after[i]));
            }
            if j < state.approvals.len() {
                assert(state.approvals.contains(after[j]));
            }
        }
    }
}

/// A veto keeps a lock among the states that a lock can be in.
pub proof fn lemma_reject_preserves_wf(state: LockState)
    requires
        state.wf(),
    ensures
        state.reject().wf(),
{
}

/// Running `first` and then `second` is running the two as one sequence.
pub proof fn lemma_run_concat(state: LockState, first: Seq<Call>, second: Seq<Call>)
    ensures
        run(state, first + second) == run(run(state, first), second),
    decreases second.len(),
{
    if second.len() == 0 {
        assert(first + second =~= first);
    } else {
        lemma_run_concat(state, first, second.drop_last());
        assert((first + second).drop_last() =~= first + second.drop_last());
    }
}

/// Whatever calls are made on a lock, and in whatever order, it stays in a
/// state that a lock can be in: no identity is recorded twice, it never holds
/// more than 32 approvals, and it is approved exactly when its approvals have
/// reached the quorum.
pub proof fn lemma_calls_preserve_wf(state: LockState, calls: Seq<Call>)
    requires
        state.wf(),
    ensures
        run(state, calls).wf(),
        run(state, calls).approvals.no_duplicates(),
        run(state, calls).approvals.len() <= MAX_APPROVALS,
        run(state, calls).approved <==> run(state, calls).approvals.len() >= run(
            state,
            calls,
        ).quorum,
    decreases calls.len(),
{
    if calls.len() > 0 {
        lemma_calls_preserve_wf(state, calls.drop_last());
        let before = run(state, calls.drop_last());
        match calls.last() {
            Call::Approve(approver) => lemma_approve_preserves_wf(before, approver),
            Call::Reject(_) => lemma_reject_preserves_wf(before),
        }
    }
}

/// No call changes the identifier or the quorum of a lock.
pub proof fn lemma_identifier_and_quorum_are_fixed(state: LockState, calls: Seq<Call>)
    ensures
        run(state, calls).proposal_id == state.proposal_id,
        run(state, calls).quorum == state.quorum,
    decreases calls.len(),
{
    if calls.len() > 0 {
        lemma_identifier_and_quorum_are_fixed(state, calls.drop_last());
    }
}

/// No call takes anything back: the approvals recorded before a sequence of
/// calls are still there after it, at the front and in the same order, and a
/// lock that was approved or rejected before is so after.
pub proof fn lemma_calls_only_add(state: LockState, calls: Seq<Call>)
    ensures
        state.approvals.is_prefix_of(run(state, calls).approvals),
        state.approved ==> run(state, calls).approved,
        state.rejected ==> run(state, calls).rejected,
    decreases calls.len(),
{
    if calls.len() > 0 {
        lemma_calls_only_add(state, calls.drop_last());
    }
}

/// On a new lock with quorum `quorum`, approvals by distinct identities, no
/// more of them than the quorum, are all accepted and recorded in their order.
/// The lock is approved after exactly `quorum` of them, and not before: after
/// `quorum - 1` it is still open. No approval rejects it.
pub proof fn lemma_quorum_threshold(proposal_id: Seq<char>, quorum: nat, approvers: Seq<Identity>)
    requires
        valid_quorum(quorum),
        approvers.no_duplicates(),
        approvers.len() <= quorum,
    ensures
        run(initial_state(proposal_id, quorum), approvals_by(approvers)).approvals == approvers,
        run(initial_state(proposal_id, quorum), approvals_by(approvers)).approved <==> approvers.len()
            == quorum,
        !run(initial_state(proposal_id, quorum), approvals_by(approvers)).rejected,
        forall|k: int|
            0 <= k < approvers.len() ==> run(
                initial_state(proposal_id, quorum),
                approvals_by(#[trigger] approvers.take(k)),
            ).approve_outcome(approvers[k]) is Ok,
    decreases approvers.len(),
{
    let start = initial_state(proposal_id, quorum);
    if approvers.len() > 0 {
        // All but the last approver first: they leave the lock open.
        let front = approvers.drop_last();
        let last = approvers.last();
        lemma_quorum_threshold(proposal_id, quorum, front);
        lemma_identifier_and_quorum_are_fixed(start, approvals_by(front));
        assert(approvals_by(approvers).drop_last() =~= approvals_by(front));
        let before = run(start, approvals_by(front));
        // The last approver is none of them, so it is accepted.
        assert(!before.approvals.contains(last)) by {
            if front.contains(last) {
                let i = choose|i: int| 0 <= i < front.len() && front[i] == last;
                assert(approvers[i] == approvers[approvers.len() - 1]);
            }
        }
        assert(run(start, approvals_by(approvers)).approvals =~= approvers);
        assert forall|k: int| 0 <= k < approvers.len() implies run(
            start,
            approvals_by(#[trigger] approvers.take(k)),
        ).approve_outcome(approvers[k]) is Ok by {
            if k < front.len() {
                assert(approvers.take(k) =~= front.take(k));
            } else {
                assert(approvers.take(k) =~= front);
            }
        }
    }
}

/// An identity that has approved a lock cannot approve it again: the call is
/// refused and changes nothing, so the number of approvals stays what it was.
/// While the lock is open, the refusal is `Duplicate`. Once it is approved or
/// rejected, that is what the refusal reports instead.
pub proof fn lemma_repeated_approver_is_refused(state: LockState, approver: Identity)
    requires
        state.approvals.contains(approver),
    ensures
        state.approve_outcome(approver) is Err,
        state.approve(approver) == state,
        state.is_open() ==> state.approve_outcome(approver) == Err::<(), ErrorCode>(
            ErrorCode::Duplicate,
        ),
{
}

/// After an identity has tried to approve, it is recorded or the lock is no
/// longer open, and no later call undoes either.
proof fn lemma_recorded_or_closed_persists(state: LockState, calls: Seq<Call>, approver: Identity)
    requires
        state.approvals.contains(approver) || !state.is_open(),
    ensures
        run(state, calls).approvals.contains(approver) || !run(state, calls).is_open(),
{
    lemma_calls_only_add(state, calls);
    if state.approvals.contains(approver) {
        let i = choose|i: int| 0 <= i < state.approvals.len() && state.approvals[i] == approver;
        assert(run(state, calls).approvals[i] == approver);
    }
}

/// In any sequence of calls in which one identity approves twice, its second
/// approval is refused and changes nothing, whatever the state the sequence
/// started in and whatever other calls it holds. If the lock is still open when
/// the second approval is made, the refusal is `Duplicate`.
pub proof fn lemma_second_approval_is_refused(
    state: LockState,
    calls: Seq<Call>,
    first: int,
    second: int,
    approver: Identity,
)
    requires
        0 <= first < second < calls.len(),
        calls[first] == Call::Approve(approver),
        calls[second] == Call::Approve(approver),
    ensures
        run(state, calls.take(second)).approve_outcome(approver) is Err,
        run(state, calls.take(second + 1)) == run(state, calls.take(second)),
        run(state, calls.take(second)).is_open() ==> run(
            state,
            calls.take(second),
        ).approve_outcome(approver) == Err::<(), ErrorCode>(ErrorCode::Duplicate),
{
    // After its first approval the identity is recorded, or the lock was
    // not open and refused it.
    let up_to_first = calls.take(first + 1);
    let before_first = run(state, calls.take(first));
    let after_first = run(state, up_to_first);
    assert(up_to_first.drop_last() =~= calls.take(first));
    assert(after_first == before_first.approve(approver));
    assert(after_first.approvals.contains(approver) || !after_first.is_open()) by {
        if before_first.approve_outcome(approver) is Ok {
            assert(after_first.approvals[before_first.approvals.len() as int] == approver);
        }
    }
    // The calls in between undo neither.
    let between = calls.subrange(first + 1, second);
    lemma_recorded_or_closed_persists(after_first, between, approver);
    lemma_run_concat(state, up_to_first, between);
    assert(up_to_first + between =~= calls.take(second));
    assert(calls.take(second + 1).drop_last() =~= calls.take(second));
}

/// Once a lock is rejected, nothing changes it any more, and every approval
/// is refused with `Rejected`, however many approvals the lock holds.
pub proof fn lemma_rejected_is_final(state: LockState, calls: Seq<Call>, approver: Identity)
    requires
        state.rejected,
    ensures
        run(state, calls) == state,
        run(state, calls).approve_outcome(approver) == Err::<(), ErrorCode>(ErrorCode::Rejected),
    decreases calls.len(),
{
    if calls.len() > 0 {
        lemma_rejected_is_final(state, calls.drop_last(), approver);
    }
}

/// Once a lock is approved, it stays approved and its approvals never change
/// again, in number or in content: every later approval is refused. The
/// refusal is `Approved`, unless the lock has been vetoed since, in which case
/// it is `Rejected`. A veto is the only call that still changes the lock.
pub proof fn lemma_approved_is_final(state: LockState, calls: Seq<Call>, approver: Identity)
    requires
        state.approved,
    ensures
        run(state, calls).approved,
        run(state, calls).approvals == state.approvals,
        run(state, calls).approve_outcome(approver) is Err,
        run(state, calls).approve(approver) == run(state, calls),
        !run(state, calls).rejected ==> run(state, calls).approve_outcome(approver) == Err::<
            (),
            ErrorCode,
        >(ErrorCode::Approved),
        run(state, calls).rejected ==> run(state, calls).approve_outcome(approver) == Err::<
            (),
            ErrorCode,
        >(ErrorCode::Rejected),
    decreases calls.len(),
{
    if calls.len() > 0 {
        lemma_approved_is_final(state, calls.drop_last(), approver);
    }
}

/// A veto rejects the lock and changes nothing else, and a second veto
/// changes nothing at all.
pub proof fn lemma_reject_is_idempotent(state: LockState)
    ensures
        state.reject().rejected,
        state.reject().approved == state.approved,
        state.reject().approvals == state.approvals,
        state.reject().proposal_id == state.proposal_id,
        state.reject().quorum == state.quorum,
        state.reject().reject() == state.reject(),
{
}

/// Every state that a lock can be in is reached by some sequence of calls on
/// a new lock: by the approvals it holds, in their order, and then a veto if it
/// is rejected.
pub proof fn lemma_wf_states_are_reached(state: LockState, vetoer: Identity)
    requires
        state.wf(),
    ensures
        !state.rejected ==> run(
            initial_state(state.proposal_id, state.quorum),
            approvals_by(state.approvals),
        ) == state,
        state.rejected ==> run(
            initial_state(state.proposal_id, state.quorum),
            approvals_by(state.approvals).push(Call::Reject(vetoer)),
        ) == state,
{
    let start = initial_state(state.proposal_id, state.quorum);
    let approving = approvals_by(state.approvals);
    lemma_quorum_threshold(state.proposal_id, state.quorum, state.approvals);
    lemma_identifier_and_quorum_are_fixed(start, approving);
    assert(run(start, approving) =~= LockState { rejected: false, ..state });
    if state.rejected {
        assert(approving.push(Call::Reject(vetoer)).drop_last() =~= approving);
    }
}

/// Approving never sets both flags: a lock is both approved and rejected only
/// when it was vetoed after it had been approved.
pub proof fn lemma_both_flags_only_by_veto(state: LockState, call: Call)
    requires
        !(state.approved && state.rejected),
        apply(state, call).approved && apply(state, call).rejected,
    ensures
        call is Reject,
        state.approved,
{
}

/// A lock ends up both approved and rejected only if, somewhere in the calls
/// made on it, a veto came when it was already approved. So as long as nobody
/// vetoes an approved lock, the two flags are never set together.
pub proof fn lemma_both_flags_need_a_veto_after_approval(state: LockState, calls: Seq<Call>)
    requires
        !(state.approved && state.rejected),
        run(state, calls).approved && run(state, calls).rejected,
    ensures
        exists|k: int|
            0 <= k < calls.len() && calls[k] is Reject && (#[trigger] run(
                state,
                calls.take(k),
            )).approved,
    decreases calls.len(),
{
    let front = calls.drop_last();
    let before = run(state, front);
    if before.approved && before.rejected {
        lemma_both_flags_need_a_veto_after_approval(state, front);
        let k = choose|k: int|
            0 <= k < front.len() && front[k] is Reject && (#[trigger] run(
                state,
                front.take(k),
            )).approved;
        assert(calls.take(k) =~= front.take(k));
    } else {
        // The last call set the second flag: it is the veto.
        lemma_both_flags_only_by_veto(before, calls.last());
        assert(calls.take(calls.len() - 1) =~= front);
    }
}

} // verus!
