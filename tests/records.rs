use research_dao::contract::{
    execute_approve, execute_approve_all, execute_create_data_item, execute_create_paper_item,
    execute_freeze_data, execute_grant_access, execute_request_access, execute_revoke_all,
    execute_set_base_citation_fee, execute_submit_correction, execute_transfer_nft,
    execute_update_data_item, instantiate, is_approved_or_owner, ContractState,
};
use research_dao::error::ContractError;
use research_dao::text::{decimal_string, text_less};
use research_dao::msg::{AccessLevel, Coin, InstantiateMsg};
use research_dao::query::{
    query_access_level, query_all_tokens, query_authorized_users, query_owner_of, query_token_info,
    query_base_citation_fee, query_data_item, query_data_versions, query_num_tokens, query_paper_doi,
};

const NOW: u64 = 5_000;

fn s(x: &str) -> String {
    x.to_string()
}

fn with_records() -> ContractState {
    let mut state = instantiate(InstantiateMsg { name: s("R"), symbol: s("R"), owner: s("creator") });
    execute_create_data_item(&mut state, &s("alice"), NOW, s("QmData"), 1000, false, s("m0"));
    execute_create_paper_item(&mut state, &s("bob"), NOW, s("QmPaper"), s("10.1/p"), s("m1"));
    state
}

#[test]
fn ownership_and_approvals() {
    let mut state = with_records();
    assert_eq!(query_owner_of(&state, 0), Ok(s("alice")));
    assert_eq!(is_approved_or_owner(&state, &s("carol"), 0), Ok(false));
    assert_eq!(is_approved_or_owner(&state, &s("carol"), 9), Err(ContractError::TokenNotFound {}));
    assert_eq!(execute_approve(&mut state, &s("carol"), s("carol"), 0), Err(ContractError::NotAuthorized {}));
    assert_eq!(execute_approve(&mut state, &s("alice"), s("carol"), 0), Ok(()));
    assert_eq!(is_approved_or_owner(&state, &s("carol"), 0), Ok(true));
    assert_eq!(execute_transfer_nft(&mut state, &s("carol"), s("dave"), 0), Ok(()));
    assert_eq!(query_owner_of(&state, 0), Ok(s("dave")));
    assert_eq!(query_token_info(&state, 0).unwrap().data_item.owner, "dave");
    // The approval does not survive the transfer.
    assert_eq!(is_approved_or_owner(&state, &s("carol"), 0), Ok(false));
    assert_eq!(execute_transfer_nft(&mut state, &s("carol"), s("carol"), 0), Err(ContractError::NotAuthorized {}));

    execute_approve_all(&mut state, &s("dave"), s("erin"));
    assert_eq!(is_approved_or_owner(&state, &s("erin"), 0), Ok(true));
    execute_revoke_all(&mut state, &s("dave"), &s("erin"));
    assert_eq!(is_approved_or_owner(&state, &s("erin"), 0), Ok(false));
}

#[test]
fn content_updates_and_freezing() {
    let mut state = with_records();
    assert_eq!(
        execute_update_data_item(&mut state, &s("bob"), NOW + 1, 0, s("QmNew"), s("m2")),
        Err(ContractError::NotAuthorized {})
    );
    assert_eq!(execute_update_data_item(&mut state, &s("alice"), NOW + 1, 0, s("QmNew"), s("m2")), Ok(()));
    let item = query_data_item(&state, 0).unwrap();
    assert_eq!((item.ipfs_hash.as_str(), item.metadata_uri.as_str(), item.last_updated), ("QmNew", "m2", NOW + 1));
    let versions = query_data_versions(&state, 0).unwrap();
    assert_eq!(versions.len(), 2);
    assert_eq!(versions[1].ipfs_hash, "QmNew");
    assert_eq!(execute_freeze_data(&mut state, &s("alice"), 0, true), Ok(()));
    assert_eq!(
        execute_update_data_item(&mut state, &s("alice"), NOW + 2, 0, s("QmX"), s("m3")),
        Err(ContractError::DataFrozen {})
    );
    assert_eq!(query_data_versions(&state, 0).unwrap().len(), 2);
    assert_eq!(query_data_versions(&state, 7), Err(ContractError::TokenNotFound {}));
}

#[test]
fn access_grants_and_paid_requests() {
    let mut state = with_records();
    let none: Vec<Coin> = vec![];
    assert_eq!(execute_request_access(&mut state, &s("zed"), 0, &none), Err(ContractError::NotAuthorized {}));
    assert_eq!(execute_grant_access(&mut state, &s("zed"), 0, s("zed"), AccessLevel::Read), Err(ContractError::NotAuthorized {}));
    assert_eq!(execute_grant_access(&mut state, &s("alice"), 0, s("zed"), AccessLevel::Read), Ok(()));
    assert_eq!(query_access_level(&state, 0, &s("zed")), AccessLevel::Read);
    assert_eq!(query_authorized_users(&state, 0), vec![s("zed")]);
    execute_grant_access(&mut state, &s("alice"), 0, s("zed"), AccessLevel::Write).unwrap();
    assert_eq!(query_access_level(&state, 0, &s("zed")), AccessLevel::Write);
    assert_eq!(query_authorized_users(&state, 0), vec![s("zed")]);

    assert_eq!(execute_request_access(&mut state, &s("zed"), 0, &none), Ok(vec![]));
    let low = vec![Coin { denom: s("utoken"), amount: 999 }];
    assert_eq!(execute_request_access(&mut state, &s("zed"), 0, &low), Err(ContractError::InsufficientPayment {}));
    let pay = vec![Coin { denom: s("utoken"), amount: 1500 }];
    let payouts = execute_request_access(&mut state, &s("zed"), 0, &pay).unwrap();
    assert_eq!(payouts.len(), 1);
    assert_eq!((payouts[0].to.as_str(), payouts[0].amount), ("alice", 1500));
    assert_eq!(query_data_item(&state, 0).unwrap().total_earned, 1500);

    execute_grant_access(&mut state, &s("alice"), 0, s("zed"), AccessLevel::NoAccess).unwrap();
    assert_eq!(query_access_level(&state, 0, &s("zed")), AccessLevel::NoAccess);
    assert_eq!(query_authorized_users(&state, 0), Vec::<String>::new());
    assert_eq!(execute_request_access(&mut state, &s("zed"), 0, &none), Err(ContractError::NotAuthorized {}));
    // Public papers are open to everyone and never charged.
    assert_eq!(execute_request_access(&mut state, &s("zed"), 1, &pay), Ok(vec![]));
    assert_eq!(execute_request_access(&mut state, &s("zed"), 5, &pay), Err(ContractError::TokenNotFound {}));
}

#[test]
fn corrections_get_versioned_dois() {
    let mut state = with_records();
    assert_eq!(execute_submit_correction(&mut state, &s("alice"), NOW, 1, s("QmFix")), Err(ContractError::NotAuthorized {}));
    assert_eq!(execute_submit_correction(&mut state, &s("alice"), NOW, 0, s("QmFix")), Err(ContractError::TokenNotFound {}));
    let (id, doi) = execute_submit_correction(&mut state, &s("bob"), NOW, 1, s("QmFix")).unwrap();
    assert_eq!(id, 2);
    assert_eq!(doi, "10.1/p-v2");
    assert_eq!(query_paper_doi(&state, 2), Ok(s("10.1/p-v2")));
    assert_eq!(query_data_item(&state, 2).unwrap().metadata_uri, "m1");
    assert_eq!(query_num_tokens(&state).count, 3);
}

#[test]
fn token_listing_and_fee() {
    let mut state = with_records();
    for k in 0..40 {
        execute_create_data_item(&mut state, &s("alice"), NOW, format!("Qm{}", k), 0, true, s("m"));
    }
    assert_eq!(query_all_tokens(&state, None, None), (0..30).collect::<Vec<u64>>());
    assert_eq!(query_all_tokens(&state, Some(39), Some(5)), vec![40, 41]);
    assert_eq!(query_all_tokens(&state, Some(u64::MAX), None), Vec::<u64>::new());
    assert_eq!(query_all_tokens(&state, None, Some(1000)).len(), 42);

    assert_eq!(query_base_citation_fee(&state), 100_000);
    assert_eq!(execute_set_base_citation_fee(&mut state, &s("alice"), 5), Err(ContractError::NotAuthorized {}));
    assert_eq!(execute_set_base_citation_fee(&mut state, &s("creator"), 5), Ok(()));
    assert_eq!(query_base_citation_fee(&state), 5);
}

#[test]
fn decimal_text_of_numbers() {
    assert_eq!(decimal_string(0), "0");
    assert_eq!(decimal_string(7), "7");
    assert_eq!(decimal_string(10), "10");
    assert_eq!(decimal_string(u64::MAX), u64::MAX.to_string());
    assert!(text_less("alice", "bob"));
    assert!(text_less("bob", "bobby"));
    assert!(!text_less("bob", "bob"));
    assert!(!text_less("b", "a"));
}
