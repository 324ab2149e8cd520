use bounty_board::BountyInterface;
use bounty_board::Proposal;
use bounty_board::ProposalError;
use bounty_board::ProposalStatus;
use bounty_board::ValidatorRegistry;

fn pending_proposal(id: u32) -> Proposal {
    Proposal {
        id,
        hunter_address: "H1".to_string(),
        github_pr_url: format!("http://x/pr/{}", id),
        description: "work".to_string(),
        status: ProposalStatus::Pending,
        approvals: 0,
        validators: Vec::new(),
        timestamp: 0,
    }
}

/// A store in a state with several registered validators and `n` pending
/// proposals. The public surface only builds single-seed registries, so
/// multi-validator states are assembled directly from the public fields.
fn multi_validator_store(addrs: &[&str], n: u32) -> BountyInterface {
    let mut proposals = Vec::new();
    for id in 1..=n {
        proposals.push(pending_proposal(id));
    }
    BountyInterface {
        contract_address: addrs[0].to_string(),
        proposals,
        validators: ValidatorRegistry {
            entries: addrs.iter().map(|a| a.to_string()).collect(),
        },
        next_proposal_id: n + 1,
    }
}

#[test]
fn test_submit_assigns_sequential_ids() {
    let mut store = BountyInterface::new("V1".to_string());
    for expected in 1..=5u32 {
        let id = store.submit_proposal(
            format!("http://x/pr/{}", expected),
            "desc".to_string(),
            "H1".to_string(),
            100 + expected as u64,
        );
        assert_eq!(id, expected);
    }
    let listed = store.get_proposals();
    assert_eq!(listed.len(), 5);
    for (pos, p) in listed.iter().enumerate() {
        assert_eq!(p.id, pos as u32 + 1);
    }
}

#[test]
fn test_approval_count_matches_voter_list() {
    let mut store = multi_validator_store(&["V1", "V2", "V3"], 2);
    assert_eq!(store.approve_proposal(1, "V1".to_string()), Ok(()));
    assert_eq!(store.approve_proposal(1, "V2".to_string()), Ok(()));
    assert_eq!(store.approve_proposal(2, "V3".to_string()), Ok(()));
    for p in store.get_proposals() {
        assert_eq!(p.approvals as usize, p.validators.len());
    }
}

#[test]
fn test_voter_appears_at_most_once() {
    let mut store = BountyInterface::new("V1".to_string());
    store.submit_proposal("u".to_string(), "d".to_string(), "H1".to_string(), 1);
    assert_eq!(store.approve_proposal(1, "V1".to_string()), Ok(()));
    assert_eq!(
        store.approve_proposal(1, "V1".to_string()),
        Err(ProposalError::AlreadyVoted)
    );
    let listed = store.get_proposals();
    let occurrences = listed[0]
        .validators
        .iter()
        .filter(|v| v.as_str() == "V1")
        .count();
    assert_eq!(occurrences, 1);
}

#[test]
fn test_quorum_reaches_approved_and_stays() {
    let mut store = multi_validator_store(&["V1", "V2", "V3"], 1);
    assert_eq!(store.approve_proposal(1, "V1".to_string()), Ok(()));
    assert_eq!(store.get_proposals()[0].status, ProposalStatus::Pending);
    assert_eq!(store.approve_proposal(1, "V2".to_string()), Ok(()));
    let after_quorum = store.get_proposals();
    assert_eq!(after_quorum[0].approvals, 2);
    assert_eq!(after_quorum[0].status, ProposalStatus::Approved);
    // A further approval succeeds, raises the count past the quorum, and
    // never moves the status away from Approved.
    assert_eq!(store.approve_proposal(1, "V3".to_string()), Ok(()));
    let after_third = store.get_proposals();
    assert_eq!(after_third[0].approvals, 3);
    assert_eq!(after_third[0].status, ProposalStatus::Approved);
}

#[test]
fn test_unauthorized_leaves_store_unchanged() {
    let mut store = BountyInterface::new("V1".to_string());
    store.submit_proposal("u".to_string(), "d".to_string(), "H1".to_string(), 9);
    let before = store.get_proposals();
    assert_eq!(
        store.approve_proposal(1, "V9".to_string()),
        Err(ProposalError::Unauthorized)
    );
    assert_eq!(store.get_proposals(), before);
}

#[test]
fn test_missing_proposal_not_found() {
    let mut store = BountyInterface::new("V1".to_string());
    assert_eq!(
        store.approve_proposal(42, "V1".to_string()),
        Err(ProposalError::NotFound)
    );
    store.submit_proposal("u".to_string(), "d".to_string(), "H1".to_string(), 1);
    let before = store.get_proposals();
    assert_eq!(
        store.approve_proposal(2, "V1".to_string()),
        Err(ProposalError::NotFound)
    );
    assert_eq!(store.get_proposals(), before);
}

#[test]
fn test_repeat_vote_rejected_and_count_unchanged() {
    let mut store = BountyInterface::new("V1".to_string());
    store.submit_proposal("u".to_string(), "d".to_string(), "H1".to_string(), 1);
    assert_eq!(store.approve_proposal(1, "V1".to_string()), Ok(()));
    assert_eq!(store.get_proposals()[0].approvals, 1);
    assert_eq!(
        store.approve_proposal(1, "V1".to_string()),
        Err(ProposalError::AlreadyVoted)
    );
    assert_eq!(store.get_proposals()[0].approvals, 1);
}

#[test]
fn test_single_seed_scenario() {
    let mut store = BountyInterface::new("V1".to_string());
    let id = store.submit_proposal(
        "http://x/pr/1".to_string(),
        "fix bug".to_string(),
        "H1".to_string(),
        1000,
    );
    assert_eq!(id, 1);
    let listed = store.get_proposals();
    assert_eq!(listed[0].status, ProposalStatus::Pending);
    assert_eq!(listed[0].approvals, 0);
    assert_eq!(store.approve_proposal(1, "V1".to_string()), Ok(()));
    let approved_once = store.get_proposals();
    assert_eq!(approved_once[0].approvals, 1);
    assert_eq!(approved_once[0].status, ProposalStatus::Pending);
    assert!(!store.is_validator("V2".to_string()));
    assert_eq!(
        store.approve_proposal(1, "V2".to_string()),
        Err(ProposalError::Unauthorized)
    );
}

#[test]
fn test_two_validator_scenario() {
    let mut store = multi_validator_store(&["V1", "V2"], 5);
    assert_eq!(store.get_proposals()[4].status, ProposalStatus::Pending);
    assert_eq!(store.approve_proposal(5, "V1".to_string()), Ok(()));
    assert_eq!(store.approve_proposal(5, "V2".to_string()), Ok(()));
    let listed = store.get_proposals();
    assert_eq!(listed[4].approvals, 2);
    assert_eq!(listed[4].status, ProposalStatus::Approved);
}

#[test]
fn test_list_preserves_submission_order() {
    let mut store = BountyInterface::new("V1".to_string());
    for id in 1..=3u32 {
        store.submit_proposal(
            format!("http://x/pr/{}", id),
            "d".to_string(),
            "H1".to_string(),
            id as u64,
        );
    }
    // Approve out of submission order; the listing order must not change.
    assert_eq!(store.approve_proposal(3, "V1".to_string()), Ok(()));
    assert_eq!(store.approve_proposal(1, "V1".to_string()), Ok(()));
    let listed = store.get_proposals();
    let ids: Vec<u32> = listed.iter().map(|p| p.id).collect();
    assert_eq!(ids, vec![1, 2, 3]);
}

#[test]
fn test_snapshot_is_a_value_copy() {
    let mut store = BountyInterface::new("V1".to_string());
    store.submit_proposal("u".to_string(), "d".to_string(), "H1".to_string(), 1);
    let snapshot = store.get_proposals();
    assert_eq!(store.approve_proposal(1, "V1".to_string()), Ok(()));
    // The earlier snapshot still shows the pre-approval state.
    assert_eq!(snapshot[0].approvals, 0);
    assert_eq!(snapshot[0].validators.len(), 0);
    assert_eq!(store.get_proposals()[0].approvals, 1);
}

#[test]
fn test_submitted_fields_are_recorded() {
    let mut store = BountyInterface::new("V1".to_string());
    store.submit_proposal(
        "http://example/pr/7".to_string(),
        "add a parser".to_string(),
        "H7".to_string(),
        123456789,
    );
    let listed = store.get_proposals();
    assert_eq!(listed[0].github_pr_url, "http://example/pr/7");
    assert_eq!(listed[0].description, "add a parser");
    assert_eq!(listed[0].hunter_address, "H7");
    assert_eq!(listed[0].timestamp, 123456789);
    assert_eq!(listed[0].validators, Vec::<String>::new());
}

#[test]
fn test_empty_strings_accepted() {
    let mut store = BountyInterface::new("V1".to_string());
    let id = store.submit_proposal(String::new(), String::new(), String::new(), 0);
    assert_eq!(id, 1);
    let listed = store.get_proposals();
    assert_eq!(listed[0].github_pr_url, "");
    assert_eq!(listed[0].hunter_address, "");
    assert_eq!(listed[0].status, ProposalStatus::Pending);
}

#[test]
fn test_is_validator_membership() {
    let store = BountyInterface::new("V1".to_string());
    assert!(store.is_validator("V1".to_string()));
    assert!(!store.is_validator("V2".to_string()));
    assert!(!store.is_validator(String::new()));
    let registry = ValidatorRegistry::new("alice".to_string());
    assert!(registry.is_validator(&"alice".to_string()));
    assert!(!registry.is_validator(&"bob".to_string()));
}

#[test]
fn test_get_time_left_constant() {
    let store = BountyInterface::new("V1".to_string());
    assert_eq!(store.get_time_left(), 86400);
}
