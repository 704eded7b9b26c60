//! The leaderboard: limit clamping, score-descending order with stable
//! ties, rank reassignment, and the end-to-end walk through the whole
//! surface.

use skillexify_proof::msg::{ExecuteMsg, ExecuteReply, InstantiateMsg, QueryAnswer, QueryMsg};
use skillexify_proof::error::ContractError;
use skillexify_proof::state::State;

fn hash32() -> String {
    String::from("0123456789abcdef0123456789abcdef")
}

fn submit(state: &mut State, who: &str, time: u64, platform: &str) {
    state
        .execute_store_proof(
            &String::from(who),
            time,
            String::from(platform),
            String::from(who),
            String::from("data"),
            hash32(),
            None,
        )
        .unwrap();
}

fn board_of(state: &State, platform: Option<&str>, limit: Option<u32>) -> Vec<(String, i32, u32)> {
    state
        .query_leaderboard(platform.map(String::from), limit)
        .into_iter()
        .map(|e| (e.user, e.score, e.rank))
        .collect()
}

#[test]
fn limit_zero_gives_empty_board() {
    let deployer = String::from("deployer");
    let mut state = State::instantiate(&deployer, InstantiateMsg { admin: None });
    submit(&mut state, "a", 1, "GitHub");
    assert!(state.query_leaderboard(None, Some(0)).is_empty());
}

#[test]
fn huge_limit_is_clamped() {
    let deployer = String::from("deployer");
    let mut state = State::instantiate(&deployer, InstantiateMsg { admin: None });
    for (i, who) in ["a", "b", "c"].iter().enumerate() {
        submit(&mut state, who, i as u64, "GitHub");
    }
    let rows = state.query_leaderboard(None, Some(5000));
    assert_eq!(rows.len(), 3);
}

#[test]
fn sorted_by_score_descending_with_fresh_ranks() {
    let deployer = String::from("deployer");
    let mut state = State::instantiate(&deployer, InstantiateMsg { admin: None });
    // a: 35, b: 70 (two platforms), c: 45 (one platform, one repeat).
    submit(&mut state, "a", 1, "GitHub");
    submit(&mut state, "b", 2, "GitHub");
    submit(&mut state, "b", 3, "Kaggle");
    submit(&mut state, "c", 4, "GitHub");
    submit(&mut state, "c", 5, "GitHub");
    let rows = board_of(&state, None, None);
    assert_eq!(
        rows,
        vec![
            (String::from("b"), 70, 1),
            (String::from("c"), 45, 2),
            (String::from("a"), 35, 3),
        ]
    );
}

#[test]
fn ties_keep_first_seen_order() {
    let deployer = String::from("deployer");
    let mut state = State::instantiate(&deployer, InstantiateMsg { admin: None });
    submit(&mut state, "a", 1, "GitHub");
    submit(&mut state, "b", 2, "GitHub");
    submit(&mut state, "c", 3, "GitHub");
    let rows = board_of(&state, None, None);
    assert_eq!(
        rows,
        vec![
            (String::from("a"), 35, 1),
            (String::from("b"), 35, 2),
            (String::from("c"), 35, 3),
        ]
    );
}

#[test]
fn truncation_happens_before_sorting() {
    // The documented defect: the first `limit` members are captured in
    // first-seen order and only then sorted, so a later, higher-scored
    // member is left out.
    let deployer = String::from("deployer");
    let mut state = State::instantiate(&deployer, InstantiateMsg { admin: None });
    submit(&mut state, "a", 1, "GitHub");
    submit(&mut state, "b", 2, "GitHub");
    submit(&mut state, "b", 3, "Kaggle"); // b: 70, but joined after a
    let rows = board_of(&state, None, Some(1));
    assert_eq!(rows, vec![(String::from("a"), 35, 1)]);
}

#[test]
fn platform_board_only_lists_its_members() {
    let deployer = String::from("deployer");
    let mut state = State::instantiate(&deployer, InstantiateMsg { admin: None });
    submit(&mut state, "a", 1, "GitHub");
    submit(&mut state, "b", 2, "Kaggle");
    let github = board_of(&state, Some("GitHub"), None);
    assert_eq!(github.len(), 1);
    assert_eq!(github[0].0, "a");
    let empty = board_of(&state, Some("HackerRank"), None);
    assert!(empty.is_empty());
}

#[test]
fn primary_platform_is_first_proved() {
    let deployer = String::from("deployer");
    let mut state = State::instantiate(&deployer, InstantiateMsg { admin: None });
    submit(&mut state, "a", 1, "Kaggle");
    submit(&mut state, "a", 2, "GitHub");
    let rows = state.query_leaderboard(None, None);
    assert_eq!(rows[0].primary_platform, "Kaggle");
    assert_eq!(rows[0].total_proofs, 2);
}

#[test]
fn membership_is_not_duplicated() {
    let deployer = String::from("deployer");
    let mut state = State::instantiate(&deployer, InstantiateMsg { admin: None });
    submit(&mut state, "a", 1, "GitHub");
    submit(&mut state, "a", 2, "GitHub");
    submit(&mut state, "a", 3, "Kaggle");
    assert_eq!(state.query_leaderboard(None, None).len(), 1);
    assert_eq!(
        state
            .query_leaderboard(Some(String::from("GitHub")), None)
            .len(),
        1
    );
}

#[test]
fn end_to_end_walkthrough() {
    // Instantiate with no admin override: the deployer is admin.
    let deployer = String::from("deployer");
    let mut state = State::instantiate(&deployer, InstantiateMsg { admin: None });
    assert_eq!(state.query_config().admin, "deployer");

    // The deployer proves a skill on GitHub: score 35, one proof
    // counted, both leaderboards list the deployer.
    submit(&mut state, "deployer", 100, "GitHub");
    assert_eq!(state.query_reputation(&deployer).unwrap().score, 35);
    assert_eq!(state.query_config().total_proofs, 1);
    assert_eq!(board_of(&state, Some("GitHub"), None)[0].0, "deployer");
    assert_eq!(board_of(&state, None, None)[0].0, "deployer");

    // A second user reaches a score of 70 and endorses the deployer
    // with weight 20: deployer 55, endorser 75.
    submit(&mut state, "carol", 101, "GitHub");
    submit(&mut state, "carol", 102, "Kaggle");
    let carol = String::from("carol");
    let r = state.execute_add_endorsement(
        &carol,
        103,
        deployer.clone(),
        String::from("rust"),
        String::from("ships"),
        20,
    );
    assert!(matches!(r, Ok(ExecuteReply::EndorsementAdded { .. })));
    assert_eq!(state.query_reputation(&deployer).unwrap().score, 55);
    assert_eq!(state.query_reputation(&carol).unwrap().score, 75);

    // A badge mint from a non-admin fails and creates nothing.
    let r = state.execute_mint_skill_nft(
        &carol,
        104,
        String::from("deployer"),
        String::from("GitHub"),
        2,
        String::from("ipfs://x"),
    );
    assert!(matches!(r, Err(ContractError::Unauthorized {})));
    assert!(state.query_user_nfts(&deployer).is_empty());
}

#[test]
fn query_dispatch_answers_in_matching_variants() {
    let deployer = String::from("deployer");
    let mut state = State::instantiate(&deployer, InstantiateMsg { admin: None });
    submit(&mut state, "a", 1, "GitHub");

    match state.query(QueryMsg::GetConfig {}) {
        QueryAnswer::Config(c) => assert_eq!(c.total_proofs, 1),
        _ => panic!("wrong variant"),
    }
    match state.query(QueryMsg::GetReputation { user: String::from("a") }) {
        QueryAnswer::Reputation(Some(rep)) => assert_eq!(rep.score, 35),
        _ => panic!("wrong variant"),
    }
    match state.query(QueryMsg::GetLeaderboard { platform: None, limit: Some(10) }) {
        QueryAnswer::Leaderboard(rows) => assert_eq!(rows.len(), 1),
        _ => panic!("wrong variant"),
    }
    match state.query(QueryMsg::GetPlatformStats { platform: String::from("GitHub") }) {
        QueryAnswer::PlatformStats(Some(s)) => assert_eq!(s.total_proofs, 1),
        _ => panic!("wrong variant"),
    }
    match state.query(QueryMsg::GetProof { proof_id: String::from("a:GitHub:1") }) {
        QueryAnswer::Proof(Some(p)) => assert_eq!(p.user, "a"),
        _ => panic!("wrong variant"),
    }
    match state.query(QueryMsg::GetUserProofs { user: String::from("a"), platform: None }) {
        QueryAnswer::UserProofs(v) => assert_eq!(v.len(), 1),
        _ => panic!("wrong variant"),
    }
    match state.query(QueryMsg::GetEndorsements { user: String::from("a"), skill: None }) {
        QueryAnswer::Endorsements(v) => assert!(v.is_empty()),
        _ => panic!("wrong variant"),
    }
    match state.query(QueryMsg::GetUserNfts { user: String::from("a") }) {
        QueryAnswer::UserNfts(v) => assert!(v.is_empty()),
        _ => panic!("wrong variant"),
    }

    let r = state.execute(
        &deployer,
        9,
        ExecuteMsg::UpdateAdmin { new_admin: String::from("boss") },
    );
    assert!(matches!(r, Ok(ExecuteReply::AdminUpdated {})));
    assert_eq!(state.query_config().admin, "boss");
}
