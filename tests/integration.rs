use research_dao::contract::{
    execute_cite_paper, execute_create_data_item, execute_create_paper_item,
    execute_submit_article_proposal, execute_submit_member_proposal, execute_update_dao_config,
    execute_vote_on_proposal, instantiate, ContractState,
};
use research_dao::error::ContractError;
use research_dao::msg::{Coin, ExecutionData, InstantiateMsg, MemberAction, ProposalStatus, ProposalType, VoteChoice};
use research_dao::query::{
    is_dao_member, query_citations, query_contract_info, query_dao_config, query_dao_members, query_data_item,
    query_paper_doi, query_proposal,
};

const NOW: u64 = 1_571_797_419;

fn new_state() -> ContractState {
    instantiate(InstantiateMsg {
        name: "Research Data NFT".to_string(),
        symbol: "RDN".to_string(),
        owner: "creator".to_string(),
    })
}

fn coins(amount: u128, denom: &str) -> Vec<Coin> {
    vec![Coin { denom: denom.to_string(), amount }]
}

#[test]
fn proper_initialization() {
    let state = new_state();
    let value = query_contract_info(&state);
    assert_eq!("Research Data NFT", value.name);
    assert_eq!("RDN", value.symbol);
    assert_eq!("creator", value.owner);
}

#[test]
fn dao_initialization() {
    let state = new_state();

    let members = query_dao_members(&state);
    assert_eq!(members.members, vec!["creator".to_string()]);
    assert_eq!(members.total_count, 1);
    assert!(is_dao_member(&state, &"creator".to_string()));

    let dao_config = query_dao_config(&state).config;
    assert_eq!(604800, dao_config.voting_period);
    assert_eq!(51, dao_config.approval_threshold);
    assert_eq!(1, dao_config.min_members);

    assert_eq!(0, state.proposal_count());
}

#[test]
fn create_data_item() {
    let mut state = new_state();
    let id = execute_create_data_item(
        &mut state,
        &"creator".to_string(),
        NOW,
        "QmTest".to_string(),
        1000,
        false,
        "https://example.com/metadata.json".to_string(),
    );
    assert_eq!(id, 0);

    let data_item = query_data_item(&state, 0).unwrap();
    assert_eq!("QmTest", data_item.ipfs_hash);
    assert_eq!(1000, data_item.price);
    assert_eq!(false, data_item.is_public);
}

#[test]
fn create_paper_item() {
    let mut state = new_state();
    let id = execute_create_paper_item(
        &mut state,
        &"author".to_string(),
        NOW,
        "QmPaperTest".to_string(),
        "10.1000/test.paper".to_string(),
        "https://example.com/paper.json".to_string(),
    );
    assert_eq!(id, 0);

    let doi = query_paper_doi(&state, 0).unwrap();
    assert_eq!("10.1000/test.paper", doi);
}

#[test]
fn cite_paper() {
    let mut state = new_state();
    execute_create_paper_item(
        &mut state,
        &"author".to_string(),
        NOW,
        "QmPaperTest".to_string(),
        "10.1000/test.paper".to_string(),
        "https://example.com/paper.json".to_string(),
    );

    let payouts =
        execute_cite_paper(&mut state, &"citer".to_string(), NOW, 0, &coins(100_000, "utoken")).unwrap();
    assert_eq!(2, payouts.len());
    assert_eq!(payouts[0].to, "author");
    assert_eq!(payouts[0].amount, 95_000);
    assert_eq!(payouts[1].to, "creator");
    assert_eq!(payouts[1].amount, 5_000);

    let citations = query_citations(&state, 0);
    assert_eq!(1, citations.len());
    assert_eq!(100_000, citations[0].amount);
}

#[test]
fn citation_needs_the_fee_in_the_fee_denomination() {
    let mut state = new_state();
    execute_create_paper_item(
        &mut state,
        &"author".to_string(),
        NOW,
        "QmPaperTest".to_string(),
        "10.1000/test.paper".to_string(),
        "https://example.com/paper.json".to_string(),
    );
    let citer = "citer".to_string();
    assert_eq!(
        execute_cite_paper(&mut state, &citer, NOW, 0, &coins(100_000, "earth")),
        Err(ContractError::InsufficientPayment {})
    );
    assert_eq!(
        execute_cite_paper(&mut state, &citer, NOW, 0, &coins(99_999, "utoken")),
        Err(ContractError::InsufficientPayment {})
    );
    assert_eq!(
        execute_cite_paper(&mut state, &citer, NOW, 7, &coins(100_000, "utoken")),
        Err(ContractError::TokenNotFound {})
    );
    assert_eq!(query_citations(&state, 0).len(), 0);
    let payouts = execute_cite_paper(&mut state, &citer, NOW, 0, &coins(100_099, "utoken")).unwrap();
    assert_eq!(payouts[1].amount, 5_004);
    assert_eq!(payouts[0].amount, 95_095);
}

#[test]
fn test_article_proposal_and_voting() {
    let mut state = new_state();

    let id = execute_submit_article_proposal(
        &mut state,
        &"author".to_string(),
        NOW,
        "QmTestArticle123".to_string(),
        "10.1000/test.article.2024".to_string(),
        "https://example.com/article.json".to_string(),
        "Test Article".to_string(),
        "A test article for DAO approval".to_string(),
    )
    .unwrap();
    assert_eq!(id, 0);

    let receipt = execute_vote_on_proposal(&mut state, &"creator".to_string(), NOW, 0, VoteChoice::Yes).unwrap();
    assert_eq!(receipt.yes, 1);
    assert_eq!(receipt.vote_updated, false);

    let doi = query_paper_doi(&state, 0).unwrap();
    assert_eq!("10.1000/test.article.2024", doi);
}

#[test]
fn test_dao_config_update() {
    let mut state = new_state();
    let id = execute_update_dao_config(
        &mut state,
        &"creator".to_string(),
        NOW,
        Some(1209600),
        Some(60),
        Some(1),
    )
    .unwrap();
    assert_eq!(id, 0);
    let p = query_proposal(&state, 0).unwrap().proposal;
    assert_eq!(p.proposal_type, ProposalType::UpdateConfig);
    assert_eq!(p.title, "DAO Configuration Update");
    assert_eq!(p.voting_end, NOW + 604800);
    match p.execution_data {
        Some(ExecutionData::ConfigUpdate { new_config }) => {
            assert_eq!(new_config.voting_period, 1209600);
            assert_eq!(new_config.approval_threshold, 60);
            assert_eq!(new_config.min_members, 1);
        }
        _ => panic!("Expected a configuration payload"),
    }
}

#[test]
fn test_member_management() {
    let mut state = new_state();
    let id = execute_submit_member_proposal(
        &mut state,
        &"creator".to_string(),
        NOW,
        "new_member".to_string(),
        MemberAction::Add,
        "Add New Member".to_string(),
        "Adding a new member to the DAO".to_string(),
    )
    .unwrap();
    assert_eq!(id, 0);
    let p = query_proposal(&state, 0).unwrap().proposal;
    assert_eq!(p.proposal_type, ProposalType::AddMember);
    assert_eq!(
        p.execution_data,
        Some(ExecutionData::MemberChange { member_address: "new_member".to_string(), action: MemberAction::Add })
    );
}

#[test]
fn test_non_dao_member_cannot_vote() {
    let mut state = new_state();
    execute_submit_article_proposal(
        &mut state,
        &"creator".to_string(),
        NOW,
        "QmNonMemberTest123".to_string(),
        "10.1000/non.member.2024".to_string(),
        "https://example.com/nonmember.json".to_string(),
        "Non-member Test".to_string(),
        "Testing non-member voting restriction".to_string(),
    )
    .unwrap();

    let res = execute_vote_on_proposal(&mut state, &"non_member".to_string(), NOW, 0, VoteChoice::Yes);
    assert!(res.is_err());
    match res.unwrap_err() {
        ContractError::NotDaoMember {} => {}
        _ => panic!("Expected NotDaoMember error"),
    }
}

#[test]
fn test_config_validation() {
    let mut state = new_state();
    let creator = "creator".to_string();

    let res = execute_update_dao_config(&mut state, &creator, NOW, None, Some(0), None);
    assert!(res.is_err());

    let res = execute_update_dao_config(&mut state, &creator, NOW, None, None, Some(0));
    assert!(res.is_err());
}

#[test]
fn test_cannot_remove_last_dao_member() {
    let mut state = new_state();
    let res = execute_submit_member_proposal(
        &mut state,
        &"creator".to_string(),
        NOW,
        "creator".to_string(),
        MemberAction::Remove,
        "Remove Last Member".to_string(),
        "Attempting to remove the last member".to_string(),
    );

    assert!(res.is_err());
    match res.unwrap_err() {
        ContractError::CannotRemoveLastMember {} => {}
        _ => panic!("Expected CannotRemoveLastMember error"),
    }
}

#[test]
fn test_complete_workflow() {
    let mut state = new_state();

    let id = execute_submit_article_proposal(
        &mut state,
        &"author".to_string(),
        NOW,
        "QmWorkflowTest123".to_string(),
        "10.1000/workflow.test.2024".to_string(),
        "https://example.com/workflow.json".to_string(),
        "Complete Workflow Test".to_string(),
        "Testing complete DAO governance workflow".to_string(),
    )
    .unwrap();
    assert_eq!(id, 0);

    let receipt = execute_vote_on_proposal(&mut state, &"creator".to_string(), NOW, 0, VoteChoice::Yes).unwrap();
    assert!(receipt.status == ProposalStatus::Passed || receipt.status == ProposalStatus::Executed);

    let doi = query_paper_doi(&state, 0).unwrap();
    assert_eq!("10.1000/workflow.test.2024", doi);

    let payouts =
        execute_cite_paper(&mut state, &"citer".to_string(), NOW, 0, &coins(100_000, "utoken")).unwrap();
    assert_eq!(2, payouts.len());

    let citations = query_citations(&state, 0);
    assert_eq!(1, citations.len());
}
