use research_dao::contract::{
    check_and_update_proposal_status, execute_article_publication_proposal,
    execute_create_paper_item, execute_proposal, execute_submit_article_proposal,
    execute_submit_member_proposal, execute_update_dao_config, execute_vote_on_proposal,
    instantiate, payment_in, ContractState,
};
use research_dao::error::ContractError;
use research_dao::msg::{
    Coin, DaoConfig, ExecutionOutcome, InstantiateMsg, MemberAction, ProposalStatus, VoteChoice, VoteCount,
};
use research_dao::query::{
    batch_check_proposal_expiration, check_approval_threshold, check_impossible_to_pass,
    get_dao_member_count, get_detailed_vote_statistics, query_dao_config, query_dao_members,
    query_member_voting_power, query_num_tokens, query_paper_doi, query_proposal, query_proposals,
    query_vote, query_vote_count, recount_votes,
};
use research_dao::tally::{meets_threshold, required_yes_votes, threshold_out_of_reach, without_voter};
use research_dao::text::{contains_char, is_blank, same_text, starts_with};

const NOW: u64 = 1_000_000;
const WEEK: u64 = 604800;

fn s(x: &str) -> String {
    x.to_string()
}

fn one_member(name: &str) -> ContractState {
    instantiate(InstantiateMsg { name: s("Research Data NFT"), symbol: s("RDN"), owner: s(name) })
}

fn enroll(state: &mut ContractState, proposer: &str, who: &str) {
    let id = execute_submit_member_proposal(state, &s(proposer), NOW, s(who), MemberAction::Add, s("Add"), s("Add"))
        .unwrap();
    let n = get_dao_member_count(state);
    let mut i = 0;
    let members = query_dao_members(state).members;
    while i < n as usize {
        let r = execute_vote_on_proposal(state, &members[i], NOW, id, VoteChoice::Yes).unwrap();
        if r.status == ProposalStatus::Passed {
            break;
        }
        i += 1;
    }
    execute_proposal(state, &s(proposer), NOW, id).unwrap();
}

fn article(state: &mut ContractState, proposer: &str, doi: &str) -> u64 {
    execute_submit_article_proposal(
        state,
        &s(proposer),
        NOW,
        s("QmArticle"),
        s(doi),
        s("https://example.com/a.json"),
        s("Title"),
        s("Description"),
    )
    .unwrap()
}

#[test]
fn single_member_publication_executes_at_once() {
    let mut state = one_member("A");
    let id = article(&mut state, "A", "10.1/a");
    assert_eq!(id, 0);
    let p = query_proposal(&state, 0).unwrap().proposal;
    assert_eq!(p.status, ProposalStatus::Active);
    assert_eq!(p.voting_end, NOW + WEEK);
    assert_eq!(query_vote_count(&state, 0).unwrap().vote_count.total_eligible, 1);

    let r = execute_vote_on_proposal(&mut state, &s("A"), NOW, 0, VoteChoice::Yes).unwrap();
    assert_eq!(r.status, ProposalStatus::Executed);
    assert_eq!(query_proposal(&state, 0).unwrap().proposal.status, ProposalStatus::Executed);
    assert_eq!(query_paper_doi(&state, 0).unwrap(), "10.1/a");
    assert_eq!(query_num_tokens(&state).count, 1);
}

#[test]
fn two_members_yes_then_no_is_rejected() {
    let mut state = one_member("A");
    enroll(&mut state, "A", "B");
    let id = article(&mut state, "A", "10.1/b");
    let r = execute_vote_on_proposal(&mut state, &s("A"), NOW, id, VoteChoice::Yes).unwrap();
    assert_eq!(r.status, ProposalStatus::Active);
    assert_eq!((r.yes, r.no, r.total_eligible), (1, 0, 2));
    let stats = get_detailed_vote_statistics(&state, id).unwrap();
    assert_eq!(stats.3, 2);
    assert_eq!(stats.1, false);
    assert_eq!(stats.2, false);

    let r = execute_vote_on_proposal(&mut state, &s("B"), NOW, id, VoteChoice::No).unwrap();
    assert_eq!((r.yes, r.no), (1, 1));
    assert_eq!(r.status, ProposalStatus::Rejected);
    assert_eq!(check_impossible_to_pass(&state, id), Ok(true));
}

#[test]
fn removing_the_sole_member_fails() {
    let mut state = one_member("A");
    enroll(&mut state, "A", "B");
    // B leaves: both must vote yes (ceil(2 * 51 / 100) = 2).
    let id = execute_submit_member_proposal(&mut state, &s("A"), NOW, s("B"), MemberAction::Remove, s("t"), s("d"))
        .unwrap();
    // A second removal proposal, for A, is made while two members remain.
    let last = execute_submit_member_proposal(&mut state, &s("A"), NOW, s("A"), MemberAction::Remove, s("t"), s("d"))
        .unwrap();
    execute_vote_on_proposal(&mut state, &s("A"), NOW, id, VoteChoice::Yes).unwrap();
    execute_vote_on_proposal(&mut state, &s("B"), NOW, id, VoteChoice::Yes).unwrap();
    execute_vote_on_proposal(&mut state, &s("A"), NOW, last, VoteChoice::Yes).unwrap();
    execute_vote_on_proposal(&mut state, &s("B"), NOW, last, VoteChoice::Yes).unwrap();
    assert_eq!(query_proposal(&state, last).unwrap().proposal.status, ProposalStatus::Passed);
    execute_proposal(&mut state, &s("A"), NOW, id).unwrap();
    assert_eq!(get_dao_member_count(&state), 1);
    assert_eq!(execute_proposal(&mut state, &s("A"), NOW, last), Err(ContractError::CannotRemoveLastMember {}));
    assert_eq!(get_dao_member_count(&state), 1);
    assert_eq!(query_proposal(&state, last).unwrap().proposal.status, ProposalStatus::Passed);
    assert_eq!(
        execute_submit_member_proposal(&mut state, &s("A"), NOW, s("A"), MemberAction::Remove, s("t"), s("d")),
        Err(ContractError::CannotRemoveLastMember {})
    );
}

#[test]
fn zero_threshold_is_refused_at_submission() {
    let mut state = one_member("A");
    assert_eq!(
        execute_update_dao_config(&mut state, &s("A"), NOW, None, Some(0), None),
        Err(ContractError::InvalidVotingThreshold {})
    );
    assert_eq!(
        execute_update_dao_config(&mut state, &s("A"), NOW, None, Some(101), None),
        Err(ContractError::InvalidVotingThreshold {})
    );
    assert_eq!(state.proposal_count(), 0);
    assert_eq!(query_proposals(&state, None, None, None).total_count, 0);
}

#[test]
fn config_update_needs_valid_period_and_enough_members() {
    let mut state = one_member("A");
    assert!(matches!(
        execute_update_dao_config(&mut state, &s("A"), NOW, Some(1800), None, None),
        Err(ContractError::Std(_))
    ));
    assert!(matches!(
        execute_update_dao_config(&mut state, &s("A"), NOW, None, None, Some(2)),
        Err(ContractError::Std(_))
    ));
    assert_eq!(
        execute_update_dao_config(&mut state, &s("X"), NOW, None, Some(60), None),
        Err(ContractError::NotDaoMember {})
    );
    assert_eq!(state.proposal_count(), 0);
}

#[test]
fn passed_config_update_replaces_the_configuration() {
    let mut state = one_member("A");
    let id = execute_update_dao_config(&mut state, &s("A"), NOW, Some(1209600), Some(60), None).unwrap();
    let r = execute_vote_on_proposal(&mut state, &s("A"), NOW, id, VoteChoice::Yes).unwrap();
    assert_eq!(r.status, ProposalStatus::Passed);
    let out = execute_proposal(&mut state, &s("A"), NOW, id).unwrap();
    let new_config = DaoConfig { voting_period: 1209600, approval_threshold: 60, min_members: 1 };
    assert_eq!(
        out,
        ExecutionOutcome::ConfigUpdated {
            old_config: DaoConfig { voting_period: WEEK, approval_threshold: 51, min_members: 1 },
            new_config,
        }
    );
    assert_eq!(query_dao_config(&state).config, new_config);
    assert_eq!(query_proposal(&state, id).unwrap().proposal.status, ProposalStatus::Executed);
    assert_eq!(execute_proposal(&mut state, &s("A"), NOW, id), Err(ContractError::ProposalDidNotPass {}));
    let next = article(&mut state, "A", "10.1/c");
    assert_eq!(query_proposal(&state, next).unwrap().proposal.voting_end, NOW + 1209600);
}

#[test]
fn revote_swaps_instead_of_double_counting() {
    let mut state = one_member("A");
    enroll(&mut state, "A", "B");
    enroll(&mut state, "A", "C");
    let id = article(&mut state, "A", "10.1/d");
    let r = execute_vote_on_proposal(&mut state, &s("A"), NOW, id, VoteChoice::Abstain).unwrap();
    assert_eq!((r.yes, r.no, r.abstain, r.vote_updated), (0, 0, 1, false));
    let r = execute_vote_on_proposal(&mut state, &s("A"), NOW + 5, id, VoteChoice::No).unwrap();
    assert_eq!((r.yes, r.no, r.abstain, r.vote_updated), (0, 1, 0, true));
    let r = execute_vote_on_proposal(&mut state, &s("A"), NOW + 6, id, VoteChoice::No).unwrap();
    assert_eq!((r.yes, r.no, r.abstain, r.vote_updated), (0, 1, 0, true));
    assert_eq!(r.status, ProposalStatus::Active);
    let v = query_vote(&state, id, &s("A")).vote.unwrap();
    assert_eq!(v.choice, VoteChoice::No);
    assert_eq!(v.timestamp, NOW + 6);
    assert!(query_vote(&state, id, &s("B")).vote.is_none());
    assert_eq!(recount_votes(&state, id).unwrap(), query_vote_count(&state, id).unwrap().vote_count);
}

#[test]
fn nothing_succeeds_after_the_deadline() {
    let mut state = one_member("A");
    enroll(&mut state, "A", "B");
    let id = article(&mut state, "A", "10.1/e");
    let late = NOW + WEEK + 1;
    assert_eq!(
        execute_vote_on_proposal(&mut state, &s("A"), late, id, VoteChoice::Yes),
        Err(ContractError::ProposalExpired {})
    );
    // At the deadline itself a vote is still accepted.
    let r = execute_vote_on_proposal(&mut state, &s("A"), NOW + WEEK, id, VoteChoice::Yes).unwrap();
    assert_eq!(r.status, ProposalStatus::Active);

    let add = execute_submit_member_proposal(&mut state, &s("A"), NOW, s("C"), MemberAction::Add, s("t"), s("d"))
        .unwrap();
    execute_vote_on_proposal(&mut state, &s("A"), NOW, add, VoteChoice::Yes).unwrap();
    execute_vote_on_proposal(&mut state, &s("B"), NOW, add, VoteChoice::Yes).unwrap();
    assert_eq!(execute_proposal(&mut state, &s("A"), late, add), Err(ContractError::ProposalExpired {}));
    assert!(!query_member_voting_power(&state, &s("C")).is_member);

    // Expiry is discovered lazily, by the next evaluation.
    assert_eq!(query_proposal(&state, id).unwrap().proposal.status, ProposalStatus::Active);
    assert_eq!(check_and_update_proposal_status(&mut state, late, id), Ok(ProposalStatus::Expired));
    assert_eq!(
        execute_vote_on_proposal(&mut state, &s("A"), NOW, id, VoteChoice::Yes),
        Err(ContractError::ProposalNotActive {})
    );
}

#[test]
fn removal_shrinks_active_tallies_only() {
    let mut state = one_member("A");
    enroll(&mut state, "A", "B");
    enroll(&mut state, "A", "C");
    let open = article(&mut state, "A", "10.1/f");
    let settled = article(&mut state, "A", "10.1/g");
    execute_vote_on_proposal(&mut state, &s("B"), NOW, settled, VoteChoice::No).unwrap();
    execute_vote_on_proposal(&mut state, &s("C"), NOW, settled, VoteChoice::No).unwrap();
    assert_eq!(query_proposal(&state, settled).unwrap().proposal.status, ProposalStatus::Rejected);
    execute_vote_on_proposal(&mut state, &s("C"), NOW, open, VoteChoice::Yes).unwrap();

    let rm = execute_submit_member_proposal(&mut state, &s("A"), NOW, s("C"), MemberAction::Remove, s("t"), s("d"))
        .unwrap();
    execute_vote_on_proposal(&mut state, &s("A"), NOW, rm, VoteChoice::Yes).unwrap();
    execute_vote_on_proposal(&mut state, &s("B"), NOW, rm, VoteChoice::Yes).unwrap();
    let before_open = query_vote_count(&state, open).unwrap().vote_count;
    assert_eq!(before_open.total_eligible, 3);
    let out = execute_proposal(&mut state, &s("A"), NOW, rm).unwrap();
    assert_eq!(out, ExecutionOutcome::MemberRemoved { member: s("C") });

    let after_open = query_vote_count(&state, open).unwrap().vote_count;
    assert_eq!(after_open, VoteCount { total_eligible: 2, ..before_open });
    assert_eq!(after_open.yes, 1);
    assert_eq!(query_vote_count(&state, settled).unwrap().vote_count.total_eligible, 3);
    assert_eq!(query_vote_count(&state, rm).unwrap().vote_count.total_eligible, 3);
    assert_eq!(query_dao_members(&state).members, vec![s("A"), s("B")]);
    assert_eq!(query_member_voting_power(&state, &s("C")).power, 0);
    assert_eq!(
        execute_vote_on_proposal(&mut state, &s("C"), NOW, open, VoteChoice::No),
        Err(ContractError::NotDaoMember {})
    );
}

#[test]
fn failed_publication_stays_passed_then_is_rejected_on_execution() {
    let mut state = one_member("A");
    execute_create_paper_item(&mut state, &s("X"), NOW, s("QmOld"), s("10.1/dup"), s("m"));
    let id = article(&mut state, "A", "10.1/dup");
    let r = execute_vote_on_proposal(&mut state, &s("A"), NOW, id, VoteChoice::Yes).unwrap();
    assert_eq!(r.status, ProposalStatus::Passed);
    assert_eq!(query_num_tokens(&state).count, 1);
    let e = execute_proposal(&mut state, &s("A"), NOW, id);
    assert!(matches!(e, Err(ContractError::Std(_))));
    assert_eq!(query_proposal(&state, id).unwrap().proposal.status, ProposalStatus::Rejected);
    assert_eq!(query_num_tokens(&state).count, 1);
}

#[test]
fn publication_checks_its_fields_again() {
    let mut state = one_member("A");
    let p = query_proposal(&state, 0);
    assert_eq!(p, Err(ContractError::ProposalNotFound {}));
    let id = article(&mut state, "A", "10.1/h");
    let proposal = query_proposal(&state, id).unwrap().proposal;
    assert!(execute_article_publication_proposal(&mut state, NOW, &proposal, &s("Qm1"), &s(" \t"), &s("m")).is_err());
    assert!(execute_article_publication_proposal(&mut state, NOW, &proposal, &s("Xy1"), &s("10.1/x"), &s("m")).is_err());
    assert!(execute_article_publication_proposal(&mut state, NOW, &proposal, &s("Qm1"), &s("10.1-x"), &s("m")).is_err());
    assert_eq!(query_num_tokens(&state).count, 0);
    assert_eq!(
        execute_article_publication_proposal(&mut state, NOW, &proposal, &s("Qm1"), &s("10.1/x"), &s("m")),
        Ok(0)
    );
    assert_eq!(query_paper_doi(&state, 0).unwrap(), "10.1/x");
}

#[test]
fn article_payload_is_validated_on_submission() {
    let mut state = one_member("A");
    let bad = [
        ("", "10.1/a", "m", "t"),
        ("Qm1", "  ", "m", "t"),
        ("Qm1", "10.1/a", "\u{3000}", "t"),
        ("Qm1", "10.1/a", "m", "\n"),
        ("Xm1", "10.1/a", "m", "t"),
        ("Qm1", "10.1-a", "m", "t"),
    ];
    for (ipfs, doi, meta, title) in bad.iter() {
        let r = execute_submit_article_proposal(&mut state, &s("Z"), NOW, s(ipfs), s(doi), s(meta), s(title), s("d"));
        assert!(matches!(r, Err(ContractError::Std(_))));
    }
    assert_eq!(state.proposal_count(), 0);
    let r = execute_submit_article_proposal(&mut state, &s("Z"), NOW, s("bafyX"), s("10.1/a"), s("m"), s("t"), s("d"));
    assert_eq!(r, Ok(0));
}

#[test]
fn member_proposals_are_checked() {
    let mut state = one_member("A");
    assert_eq!(
        execute_submit_member_proposal(&mut state, &s("Z"), NOW, s("B"), MemberAction::Add, s("t"), s("d")),
        Err(ContractError::NotDaoMember {})
    );
    assert_eq!(
        execute_submit_member_proposal(&mut state, &s("A"), NOW, s("A"), MemberAction::Add, s("t"), s("d")),
        Err(ContractError::MemberAlreadyExists {})
    );
    assert_eq!(
        execute_submit_member_proposal(&mut state, &s("A"), NOW, s("B"), MemberAction::Remove, s("t"), s("d")),
        Err(ContractError::MemberDoesNotExist {})
    );
    let first = execute_submit_member_proposal(&mut state, &s("A"), NOW, s("B"), MemberAction::Add, s("t"), s("d"))
        .unwrap();
    let second = execute_submit_member_proposal(&mut state, &s("A"), NOW, s("B"), MemberAction::Add, s("t"), s("d"))
        .unwrap();
    execute_vote_on_proposal(&mut state, &s("A"), NOW, first, VoteChoice::Yes).unwrap();
    execute_vote_on_proposal(&mut state, &s("A"), NOW, second, VoteChoice::Yes).unwrap();
    assert_eq!(execute_proposal(&mut state, &s("Z"), NOW, first), Err(ContractError::NotDaoMember {}));
    assert_eq!(execute_proposal(&mut state, &s("A"), NOW, 9), Err(ContractError::ProposalNotFound {}));
    assert_eq!(execute_proposal(&mut state, &s("A"), NOW, first), Ok(ExecutionOutcome::MemberAdded { member: s("B") }));
    assert_eq!(execute_proposal(&mut state, &s("A"), NOW, second), Err(ContractError::MemberAlreadyExists {}));
    assert_eq!(get_dao_member_count(&state), 2);
}

#[test]
fn proposals_are_paged_and_filtered() {
    let mut state = one_member("A");
    enroll(&mut state, "A", "B");
    for k in 0..4 {
        article(&mut state, "A", &format!("10.1/p{}", k));
    }
    // Proposal 0 admitted B; one No of two eligible rejects proposal 2.
    let r = execute_vote_on_proposal(&mut state, &s("A"), NOW, 2, VoteChoice::No).unwrap();
    assert_eq!(r.status, ProposalStatus::Rejected);

    let all = query_proposals(&state, None, None, None);
    assert_eq!(all.total_count, 5);
    assert_eq!(all.proposals.iter().map(|p| p.id).collect::<Vec<_>>(), vec![0, 1, 2, 3, 4]);

    let page = query_proposals(&state, Some(1), Some(2), None);
    assert_eq!(page.proposals.iter().map(|p| p.id).collect::<Vec<_>>(), vec![2, 3]);
    assert_eq!(page.total_count, 5);

    let active = query_proposals(&state, Some(0), None, Some(ProposalStatus::Active));
    assert_eq!(active.proposals.iter().map(|p| p.id).collect::<Vec<_>>(), vec![1, 3, 4]);
    assert_eq!(active.total_count, 3);

    let active_from_3 = query_proposals(&state, Some(2), None, Some(ProposalStatus::Active));
    assert_eq!(active_from_3.proposals.iter().map(|p| p.id).collect::<Vec<_>>(), vec![3, 4]);
    assert_eq!(active_from_3.total_count, 3);

    assert_eq!(query_proposals(&state, Some(u64::MAX), None, None).proposals.len(), 0);
    assert_eq!(query_proposals(&state, None, Some(0), None).proposals.len(), 0);
}

#[test]
fn page_size_is_clamped() {
    let mut state = one_member("A");
    enroll(&mut state, "A", "B");
    for k in 0..120 {
        article(&mut state, "A", &format!("10.1/q{}", k));
    }
    assert_eq!(query_proposals(&state, None, None, None).proposals.len(), 30);
    assert_eq!(query_proposals(&state, None, Some(500), None).proposals.len(), 100);
    assert_eq!(query_proposals(&state, None, Some(500), None).total_count, 121);
}

#[test]
fn batch_expiry_check() {
    let mut state = one_member("A");
    enroll(&mut state, "A", "B");
    let id = article(&mut state, "A", "10.1/r");
    assert_eq!(
        batch_check_proposal_expiration(&state, NOW + WEEK + 1, &[0, id]),
        Ok(vec![(0, true), (id, true)])
    );
    assert_eq!(batch_check_proposal_expiration(&state, NOW, &[id]), Ok(vec![(id, false)]));
    assert_eq!(batch_check_proposal_expiration(&state, NOW, &[id, 40]), Err(ContractError::ProposalNotFound {}));
}

#[test]
fn threshold_arithmetic() {
    assert_eq!(required_yes_votes(1, 51), 1);
    assert_eq!(required_yes_votes(2, 51), 2);
    assert_eq!(required_yes_votes(3, 51), 2);
    assert_eq!(required_yes_votes(10, 60), 6);
    assert_eq!(required_yes_votes(0, 51), 0);
    assert_eq!(required_yes_votes(u64::MAX, 100), u64::MAX);
    let config = DaoConfig { voting_period: WEEK, approval_threshold: 51, min_members: 1 };
    let t = VoteCount { yes: 1, no: 1, abstain: 0, total_eligible: 2 };
    assert!(!meets_threshold(t, config));
    assert!(threshold_out_of_reach(t, config));
    // More votes than eligible voters after a removal: nothing is left to cast.
    let t = VoteCount { yes: 1, no: 2, abstain: 0, total_eligible: 2 };
    assert!(threshold_out_of_reach(t, config));
    let t = VoteCount { yes: 2, no: 2, abstain: 0, total_eligible: 2 };
    assert!(meets_threshold(t, config));
    assert_eq!(without_voter(VoteCount { yes: 1, no: 0, abstain: 0, total_eligible: 0 }).total_eligible, 0);
    assert_eq!(without_voter(VoteCount { yes: 1, no: 0, abstain: 0, total_eligible: 4 }).total_eligible, 3);
}

#[test]
fn statistics_of_unknown_proposals_fail() {
    let state = one_member("A");
    assert_eq!(check_approval_threshold(&state, 0), Err(ContractError::ProposalNotFound {}));
    assert_eq!(query_vote_count(&state, 0), Err(ContractError::ProposalNotFound {}));
    assert_eq!(recount_votes(&state, 3), Err(ContractError::ProposalNotFound {}));
}

#[test]
fn text_checks() {
    assert!(is_blank(""));
    assert!(is_blank(" \t\r\n\u{a0}\u{2009}\u{3000}"));
    assert!(!is_blank(" a "));
    assert!(starts_with("QmX", "Qm"));
    assert!(!starts_with("Q", "Qm"));
    assert!(starts_with("bafy", "bafy"));
    assert!(contains_char("10.1/x", '/'));
    assert!(!contains_char("10.1x", '/'));
    assert!(same_text("utoken", "utoken"));
    assert!(!same_text("utoken", "utokens"));
    let funds = vec![
        Coin { denom: s("earth"), amount: 7 },
        Coin { denom: s("utoken"), amount: 9 },
        Coin { denom: s("utoken"), amount: 11 },
    ];
    assert_eq!(payment_in(&funds, "utoken"), 9);
    assert_eq!(payment_in(&funds, "moon"), 0);
}

#[test]
fn contract_error_messages() {
    assert_eq!(ContractError::NotDaoMember {}.message(), "Not a DAO member");
    assert_eq!(ContractError::Std(s("x")).message(), "x");
}

#[test]
fn members_are_listed_in_ascending_order() {
    let mut state = one_member("mallory");
    enroll(&mut state, "mallory", "zed");
    enroll(&mut state, "mallory", "alice");
    enroll(&mut state, "mallory", "bob");
    let members = query_dao_members(&state);
    assert_eq!(members.members, vec![s("alice"), s("bob"), s("mallory"), s("zed")]);
    assert_eq!(members.total_count, 4);
}

#[test]
fn config_proposal_describes_the_change() {
    let mut state = one_member("A");
    let id = execute_update_dao_config(&mut state, &s("A"), NOW, Some(1209600), Some(60), None).unwrap();
    assert_eq!(
        query_proposal(&state, id).unwrap().proposal.description,
        "Update DAO configuration - Voting Period: 604800 -> 1209600, Approval Threshold: 51% -> 60%, Min Members: 1 -> 1"
    );
}
