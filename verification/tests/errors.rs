use authchain_lock::ErrorCode;

#[test]
fn each_refusal_has_its_message() {
    assert_eq!(ErrorCode::Approved.message(), "Already approved");
    assert_eq!(ErrorCode::Rejected.message(), "Already rejected");
    assert_eq!(ErrorCode::Duplicate.message(), "Duplicate approval");
    assert_eq!(ErrorCode::InvalidProposalId.message(), "Invalid proposal id");
    assert_eq!(ErrorCode::InvalidQuorum.message(), "Invalid quorum");
}

#[test]
fn refusals_are_told_apart() {
    let all = [
        ErrorCode::Approved,
        ErrorCode::Rejected,
        ErrorCode::Duplicate,
        ErrorCode::InvalidProposalId,
        ErrorCode::InvalidQuorum,
    ];
    for (i, a) in all.iter().enumerate() {
        for (j, b) in all.iter().enumerate() {
            assert_eq!(a == b, i == j);
            assert_eq!(a.message() == b.message(), i == j);
        }
    }
}
