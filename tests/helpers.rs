use research_dao::contract::{execute_proposal, execute_submit_member_proposal, execute_vote_on_proposal, instantiate};
use research_dao::helpers::{
    can_vote_on_proposal, check_and_expire_proposal, ensure_can_execute_proposal,
    ensure_can_vote_on_proposal, get_remaining_voting_time, is_proposal_expiring_soon,
    is_within_voting_window, validate_dao_config, validate_proposal_status_transition,
    validate_status_transition_timing, validate_voting_period,
};
use research_dao::msg::{InstantiateMsg, MemberAction, Proposal, ProposalStatus, ProposalType, VoteChoice};
use research_dao::query::{ensure_dao_member, is_dao_member};
use research_dao::error::ContractError;

const NOW: u64 = 1_571_797_419;

fn proposal(id: u64, created_at: u64, voting_end: u64, status: ProposalStatus) -> Proposal {
    Proposal {
        id,
        proposer: "proposer".to_string(),
        proposal_type: ProposalType::ArticlePublication,
        title: "Test".to_string(),
        description: "Test".to_string(),
        created_at,
        voting_end,
        status,
        execution_data: None,
    }
}

fn new_state() -> research_dao::contract::ContractState {
    instantiate(InstantiateMsg {
        name: "Research Data NFT".to_string(),
        symbol: "RDN".to_string(),
        owner: "creator".to_string(),
    })
}

fn enroll(state: &mut research_dao::contract::ContractState, who: &str) {
    let creator = "creator".to_string();
    let id = execute_submit_member_proposal(
        state,
        &creator,
        NOW,
        who.to_string(),
        MemberAction::Add,
        "Add".to_string(),
        "Add".to_string(),
    )
    .unwrap();
    let receipt = execute_vote_on_proposal(state, &creator, NOW, id, VoteChoice::Yes).unwrap();
    assert_eq!(receipt.status, ProposalStatus::Passed);
    execute_proposal(state, &creator, NOW, id).unwrap();
}

#[test]
fn test_is_dao_member() {
    let mut state = new_state();
    let addr = "member1".to_string();
    assert_eq!(is_dao_member(&state, &addr), false);

    enroll(&mut state, "member1");
    assert_eq!(is_dao_member(&state, &addr), true);

    let creator = "creator".to_string();
    let id = execute_submit_member_proposal(
        &mut state,
        &creator,
        NOW,
        "member1".to_string(),
        MemberAction::Remove,
        "Remove".to_string(),
        "Remove".to_string(),
    )
    .unwrap();
    execute_vote_on_proposal(&mut state, &creator, NOW, id, VoteChoice::Yes).unwrap();
    let receipt = execute_vote_on_proposal(&mut state, &addr, NOW, id, VoteChoice::Yes).unwrap();
    assert_eq!(receipt.status, ProposalStatus::Passed);
    execute_proposal(&mut state, &creator, NOW, id).unwrap();
    assert_eq!(is_dao_member(&state, &addr), false);
}

#[test]
fn test_ensure_dao_member() {
    let mut state = new_state();
    let addr = "member1".to_string();
    assert!(ensure_dao_member(&state, &addr).is_err());
    enroll(&mut state, "member1");
    assert!(ensure_dao_member(&state, &addr).is_ok());
}

#[test]
fn test_proposal_time_validation() {
    let now = 1000;
    let active_proposal = proposal(1, 900, 1100, ProposalStatus::Active);
    let expired_proposal = proposal(2, 800, 900, ProposalStatus::Active);

    assert!(can_vote_on_proposal(now, &active_proposal));
    assert!(ensure_can_vote_on_proposal(now, &active_proposal).is_ok());

    assert!(!can_vote_on_proposal(now, &expired_proposal));
    assert!(ensure_can_vote_on_proposal(now, &expired_proposal).is_err());
}

#[test]
fn test_proposal_status_validation() {
    let now = 1000;
    let passed_proposal = proposal(1, 900, 1100, ProposalStatus::Passed);
    let executed_proposal = proposal(2, 900, 1100, ProposalStatus::Executed);

    assert!(ensure_can_execute_proposal(now, &passed_proposal).is_ok());
    assert!(ensure_can_execute_proposal(now, &executed_proposal).is_err());
}

#[test]
fn test_validate_dao_config() {
    assert!(validate_dao_config(Some(86400), Some(51), Some(1)).is_ok());

    assert!(validate_dao_config(None, Some(0), None).is_err());
    assert!(validate_dao_config(None, Some(101), None).is_err());

    assert!(validate_dao_config(Some(0), None, None).is_err());

    assert!(validate_dao_config(None, None, Some(0)).is_err());
}

#[test]
fn test_check_and_expire_proposal() {
    let now = 1200;
    let mut active_proposal = proposal(1, 900, 1100, ProposalStatus::Active);

    let result = check_and_expire_proposal(now, &mut active_proposal);

    assert!(result);
    assert_eq!(active_proposal.status, ProposalStatus::Expired);
}

#[test]
fn test_validate_voting_period() {
    assert!(validate_voting_period(86400).is_ok());

    assert!(validate_voting_period(0).is_err());
    assert!(validate_voting_period(1800).is_err());
    assert!(validate_voting_period(3000000).is_err());
}

#[test]
fn test_voting_time_calculations() {
    let now = 1000;
    let p = proposal(1, 900, 1200, ProposalStatus::Active);

    assert!(is_within_voting_window(now, &p));

    assert_eq!(get_remaining_voting_time(now, &p), 200);

    assert!(is_proposal_expiring_soon(now, &p, 300));
    assert!(!is_proposal_expiring_soon(now, &p, 100));
}

#[test]
fn test_status_transition_timing() {
    let now = 1000;
    let active_proposal = proposal(1, 900, 1100, ProposalStatus::Active);
    let expired_proposal = proposal(2, 800, 900, ProposalStatus::Active);

    assert!(validate_status_transition_timing(now, &active_proposal, &ProposalStatus::Executed).is_ok());
    assert!(validate_status_transition_timing(now, &expired_proposal, &ProposalStatus::Executed).is_err());
    assert!(validate_status_transition_timing(now, &expired_proposal, &ProposalStatus::Expired).is_ok());
    assert!(validate_status_transition_timing(now, &active_proposal, &ProposalStatus::Expired).is_err());
}

#[test]
fn remaining_time_is_negative_after_deadline_and_saturates() {
    let p = proposal(1, 0, 900, ProposalStatus::Active);
    assert_eq!(get_remaining_voting_time(1000, &p), -100);
    let far = proposal(1, 0, u64::MAX, ProposalStatus::Active);
    assert_eq!(get_remaining_voting_time(0, &far), i64::MAX);
}

#[test]
fn lifecycle_transitions_follow_the_graph() {
    assert!(validate_proposal_status_transition(&ProposalStatus::Active, &ProposalStatus::Passed).is_ok());
    assert!(validate_proposal_status_transition(&ProposalStatus::Active, &ProposalStatus::Rejected).is_ok());
    assert!(validate_proposal_status_transition(&ProposalStatus::Active, &ProposalStatus::Expired).is_ok());
    assert!(validate_proposal_status_transition(&ProposalStatus::Passed, &ProposalStatus::Executed).is_ok());
    assert!(validate_proposal_status_transition(&ProposalStatus::Passed, &ProposalStatus::Rejected).is_err());
    assert!(validate_proposal_status_transition(&ProposalStatus::Active, &ProposalStatus::Executed).is_err());
    assert!(validate_proposal_status_transition(&ProposalStatus::Executed, &ProposalStatus::Passed).is_err());
    assert!(validate_proposal_status_transition(&ProposalStatus::Rejected, &ProposalStatus::Passed).is_err());
    assert!(validate_proposal_status_transition(&ProposalStatus::Expired, &ProposalStatus::Active).is_err());
}

#[test]
fn voting_is_refused_on_a_settled_proposal() {
    let p = proposal(1, 900, 1100, ProposalStatus::Passed);
    assert_eq!(ensure_can_vote_on_proposal(1000, &p), Err(ContractError::ProposalNotActive {}));
    let q = proposal(1, 900, 1100, ProposalStatus::Passed);
    assert_eq!(ensure_can_execute_proposal(1200, &q), Err(ContractError::ProposalExpired {}));
}
