use conduit_contracts::council::{AdminCouncil, CouncilApproval};

#[test]
fn signers_stop_at_threshold() {
    let council = AdminCouncil { members: vec![1, 2, 3, 4], threshold: 2 };
    assert_eq!(council.required_signers(), CouncilApproval { signers: vec![1, 2], sufficient: true });
}

#[test]
fn zero_threshold_still_asks_first_member() {
    let council = AdminCouncil { members: vec![5, 6], threshold: 0 };
    assert_eq!(council.required_signers(), CouncilApproval { signers: vec![5], sufficient: true });
    let empty = AdminCouncil { members: vec![], threshold: 0 };
    assert_eq!(empty.required_signers(), CouncilApproval { signers: vec![], sufficient: true });
}

#[test]
fn too_few_members_are_all_asked_and_refused() {
    let council = AdminCouncil { members: vec![1, 3], threshold: 3 };
    assert_eq!(council.required_signers(), CouncilApproval { signers: vec![1, 3], sufficient: false });
}

#[test]
fn single_and_duplicate() {
    let council = AdminCouncil::single(9);
    assert_eq!(council, AdminCouncil { members: vec![9], threshold: 1 });
    assert_eq!(council.duplicate(), council);
}
