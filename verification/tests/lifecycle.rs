use authchain_lock::{approve, initialize, reject, ErrorCode, ExecutionLock, Identity};

fn id(n: u8) -> Identity {
    Identity::new([n; 32])
}

fn open_lock(proposal_id: &str, quorum: u8) -> ExecutionLock {
    initialize(proposal_id.to_string(), quorum).expect("valid identifier and quorum")
}

#[test]
fn two_approvals_reach_a_quorum_of_two() {
    let a = id(0xA);
    let b = id(0xB);
    let mut lock = open_lock("prop-1", 2);
    assert_eq!(lock.proposal_id(), "prop-1");
    assert_eq!(lock.quorum(), 2);
    assert!(!lock.approved());
    assert!(!lock.rejected());
    assert!(lock.approvals().is_empty());

    assert_eq!(approve(&mut lock, a), Ok(()));
    assert!(!lock.approved());
    assert_eq!(lock.approvals(), &vec![a]);

    assert_eq!(approve(&mut lock, b), Ok(()));
    assert!(lock.approved());
    assert!(!lock.rejected());
    assert_eq!(lock.approvals(), &vec![a, b]);
}

#[test]
fn second_approval_by_the_same_identity_is_a_duplicate() {
    let a = id(0xA);
    let mut lock = open_lock("prop-1", 2);
    assert_eq!(approve(&mut lock, a), Ok(()));
    let before = lock.clone();

    assert_eq!(approve(&mut lock, a), Err(ErrorCode::Duplicate));
    assert_eq!(lock, before);
    assert!(!lock.approved());
    assert_eq!(lock.approvals(), &vec![a]);
}

#[test]
fn approver_of_an_approved_lock_is_told_it_is_approved() {
    let a = id(0xA);
    let b = id(0xB);
    let mut lock = open_lock("prop-1", 2);
    assert_eq!(approve(&mut lock, a), Ok(()));
    assert_eq!(approve(&mut lock, b), Ok(()));
    let before = lock.clone();

    assert_eq!(approve(&mut lock, a), Err(ErrorCode::Approved));
    assert_eq!(lock, before);
    assert_eq!(lock.approvals(), &vec![a, b]);
}

#[test]
fn veto_closes_the_lock() {
    let a = id(0xA);
    let b = id(0xB);
    let x = id(0x58);
    let mut lock = open_lock("prop-2", 3);
    assert_eq!(approve(&mut lock, a), Ok(()));

    assert_eq!(reject(&mut lock, x), Ok(()));
    assert!(lock.rejected());
    assert!(!lock.approved());
    assert_eq!(lock.approvals(), &vec![a]);

    assert_eq!(approve(&mut lock, b), Err(ErrorCode::Rejected));
    assert!(lock.rejected());
    assert!(!lock.approved());
    assert_eq!(lock.approvals(), &vec![a]);
}

#[test]
fn single_approval_meets_a_quorum_of_one() {
    let a = id(0xA);
    let mut lock = open_lock("prop-3", 1);
    assert_eq!(approve(&mut lock, a), Ok(()));
    assert!(lock.approved());
    assert_eq!(lock.approvals(), &vec![a]);
}

#[test]
fn veto_of_an_untouched_lock() {
    let mut lock = open_lock("prop-4", 2);
    assert_eq!(reject(&mut lock, id(1)), Ok(()));
    assert!(lock.rejected());
    assert!(!lock.approved());
    assert!(lock.approvals().is_empty());
    assert_eq!(approve(&mut lock, id(2)), Err(ErrorCode::Rejected));
    assert!(lock.approvals().is_empty());
}

#[test]
fn veto_after_approval_sets_both_flags() {
    let a = id(0xA);
    let mut lock = open_lock("prop-5", 1);
    assert_eq!(approve(&mut lock, a), Ok(()));
    assert!(lock.approved());

    assert_eq!(reject(&mut lock, id(0x58)), Ok(()));
    assert!(lock.approved());
    assert!(lock.rejected());
    assert_eq!(lock.approvals(), &vec![a]);

    assert_eq!(approve(&mut lock, id(0xB)), Err(ErrorCode::Rejected));
    assert_eq!(approve(&mut lock, a), Err(ErrorCode::Rejected));
    assert_eq!(lock.approvals(), &vec![a]);
}

#[test]
fn refusals_are_reported_in_order() {
    let a = id(0xA);

    // Vetoed, approved and already recorded: the veto is reported.
    let mut lock = open_lock("prop-6", 1);
    approve(&mut lock, a).unwrap();
    reject(&mut lock, a).unwrap();
    assert_eq!(approve(&mut lock, a), Err(ErrorCode::Rejected));

    // Approved and already recorded: the approval is reported.
    let mut lock = open_lock("prop-6", 1);
    approve(&mut lock, a).unwrap();
    assert_eq!(approve(&mut lock, a), Err(ErrorCode::Approved));

    // Vetoed and already recorded: the veto is reported.
    let mut lock = open_lock("prop-6", 2);
    approve(&mut lock, a).unwrap();
    reject(&mut lock, a).unwrap();
    assert_eq!(approve(&mut lock, a), Err(ErrorCode::Rejected));

    // Only already recorded.
    let mut lock = open_lock("prop-6", 2);
    approve(&mut lock, a).unwrap();
    assert_eq!(approve(&mut lock, a), Err(ErrorCode::Duplicate));
}

#[test]
fn approvals_keep_the_order_in_which_they_were_made() {
    let mut lock = open_lock("ordered", 5);
    let order = [9u8, 3, 7, 1, 5];
    for n in order {
        assert_eq!(approve(&mut lock, id(n)), Ok(()));
    }
    let expected: Vec<Identity> = order.iter().map(|n| id(*n)).collect();
    assert_eq!(lock.approvals(), &expected);
    assert!(lock.approved());
}

#[test]
fn has_approved_tells_recorded_identities_apart() {
    let mut lock = open_lock("members", 3);
    approve(&mut lock, id(1)).unwrap();
    approve(&mut lock, id(2)).unwrap();
    assert!(lock.has_approved(&id(1)));
    assert!(lock.has_approved(&id(2)));
    assert!(!lock.has_approved(&id(3)));

    let mut almost = [1u8; 32];
    almost[31] = 0;
    assert!(!lock.has_approved(&Identity::new(almost)));
}

#[test]
fn identities_that_differ_in_one_byte_both_count() {
    let mut first = [0u8; 32];
    let mut second = [0u8; 32];
    first[0] = 1;
    second[31] = 1;
    let mut lock = open_lock("bytes", 2);
    assert_eq!(approve(&mut lock, Identity::new(first)), Ok(()));
    assert_eq!(approve(&mut lock, Identity::new(second)), Ok(()));
    assert!(lock.approved());
    assert_eq!(lock.approvals().len(), 2);
}
