//! Proof submission: validation order, score deltas, and the derived
//! updates to config, stats and membership lists.

use skillexify_proof::error::ContractError;
use skillexify_proof::msg::{ExecuteMsg, ExecuteReply, InstantiateMsg};
use skillexify_proof::state::State;

fn hash32() -> String {
    String::from("0123456789abcdef0123456789abcdef")
}

fn fresh(admin: Option<String>) -> (String, State) {
    let deployer = String::from("deployer");
    let state = State::instantiate(&deployer, InstantiateMsg { admin });
    (deployer, state)
}

fn submit(
    state: &mut State,
    who: &String,
    time: u64,
    platform: &str,
) -> Result<ExecuteReply, ContractError> {
    state.execute_store_proof(
        who,
        time,
        String::from(platform),
        String::from("octocat"),
        String::from("{\"stars\":10}"),
        hash32(),
        None,
    )
}

#[test]
fn instantiate_defaults_to_deployer_admin() {
    let (_deployer, state) = fresh(None);
    let cfg = state.query_config();
    assert_eq!(cfg.admin, "deployer");
    assert_eq!(cfg.total_proofs, 0);
    assert_eq!(cfg.total_users, 0);
    assert_eq!(
        cfg.supported_platforms,
        vec![
            String::from("LeetCode"),
            String::from("GitHub"),
            String::from("Kaggle"),
            String::from("HackerRank"),
            String::from("Stack Overflow"),
        ]
    );
}

#[test]
fn instantiate_takes_given_admin() {
    let (_deployer, state) = fresh(Some(String::from("boss")));
    assert_eq!(state.query_config().admin, "boss");
}

#[test]
fn first_proof_scores_35_and_updates_everything() {
    let (deployer, mut state) = fresh(None);
    let r = submit(&mut state, &deployer, 1700000000, "GitHub");
    match r {
        Ok(ExecuteReply::ProofStored { proof_id, score_gained }) => {
            assert_eq!(proof_id, "deployer:GitHub:1700000000");
            assert_eq!(score_gained, 35);
        }
        _ => panic!("expected a stored proof"),
    }
    let rep = state.query_reputation(&deployer).expect("reputation exists");
    assert_eq!(rep.score, 35);
    assert_eq!(rep.total_proofs, 1);
    assert_eq!(rep.last_updated, 1700000000);
    assert_eq!(state.query_config().total_proofs, 1);

    let stats = state
        .query_platform_stats(&String::from("GitHub"))
        .expect("stats exist");
    assert_eq!(stats.total_proofs, 1);
    assert_eq!(stats.total_users, 1);
    assert_eq!(stats.top_users, vec![String::from("deployer")]);
    assert_eq!(stats.average_score, 0);

    let github_board = state.query_leaderboard(Some(String::from("GitHub")), None);
    assert_eq!(github_board.len(), 1);
    assert_eq!(github_board[0].user, "deployer");
    let global_board = state.query_leaderboard(None, None);
    assert_eq!(global_board.len(), 1);
    assert_eq!(global_board[0].user, "deployer");
}

#[test]
fn second_proof_same_platform_scores_10() {
    let (deployer, mut state) = fresh(None);
    submit(&mut state, &deployer, 1, "GitHub").unwrap();
    let r = submit(&mut state, &deployer, 2, "GitHub");
    match r {
        Ok(ExecuteReply::ProofStored { score_gained, .. }) => assert_eq!(score_gained, 10),
        _ => panic!("expected a stored proof"),
    }
    assert_eq!(state.query_reputation(&deployer).unwrap().score, 45);
    assert_eq!(state.query_reputation(&deployer).unwrap().total_proofs, 2);
}

#[test]
fn proof_on_new_platform_scores_35_again() {
    let (deployer, mut state) = fresh(None);
    submit(&mut state, &deployer, 1, "GitHub").unwrap();
    submit(&mut state, &deployer, 2, "Kaggle").unwrap();
    assert_eq!(state.query_reputation(&deployer).unwrap().score, 70);
}

#[test]
fn short_hash_fails_without_state_change() {
    let (deployer, mut state) = fresh(None);
    let r = state.execute_store_proof(
        &deployer,
        1,
        String::from("GitHub"),
        String::from("octocat"),
        String::from("data"),
        String::from("deadbeef"),
        None,
    );
    assert!(matches!(r, Err(ContractError::InvalidProofHash {})));
    assert!(state.query_reputation(&deployer).is_none());
    assert_eq!(state.query_config().total_proofs, 0);
    assert!(state.query_leaderboard(None, None).is_empty());
    assert!(state
        .query_platform_stats(&String::from("GitHub"))
        .is_none());
}

#[test]
fn unsupported_platform_rejected() {
    let (deployer, mut state) = fresh(None);
    let r = submit(&mut state, &deployer, 1, "Codeforces");
    match r {
        Err(ContractError::UnsupportedPlatform { platform }) => {
            assert_eq!(platform, "Codeforces")
        }
        _ => panic!("expected UnsupportedPlatform"),
    }
    assert_eq!(state.query_config().total_proofs, 0);
}

#[test]
fn blank_username_rejected() {
    let (deployer, mut state) = fresh(None);
    let r = state.execute_store_proof(
        &deployer,
        1,
        String::from("GitHub"),
        String::from("  \t\n "),
        String::from("data"),
        hash32(),
        None,
    );
    assert!(matches!(r, Err(ContractError::EmptyUsername {})));
}

#[test]
fn blank_skill_data_rejected() {
    let (deployer, mut state) = fresh(None);
    let r = state.execute_store_proof(
        &deployer,
        1,
        String::from("GitHub"),
        String::from("octocat"),
        String::from("   "),
        hash32(),
        None,
    );
    assert!(matches!(r, Err(ContractError::InvalidSkillData {})));
}

#[test]
fn same_second_resubmission_overwrites_by_id() {
    // Two proofs from one submitter, platform and second share an id;
    // the record is overwritten while the index lists the id twice.
    let (deployer, mut state) = fresh(None);
    submit(&mut state, &deployer, 9, "GitHub").unwrap();
    submit(&mut state, &deployer, 9, "GitHub").unwrap();
    let proofs = state.query_user_proofs(&deployer, None);
    assert_eq!(proofs.len(), 2);
    assert_eq!(proofs[0].id, proofs[1].id);
    assert_eq!(state.query_config().total_proofs, 2);
}

#[test]
fn query_user_proofs_filters_by_platform() {
    let (deployer, mut state) = fresh(None);
    submit(&mut state, &deployer, 1, "GitHub").unwrap();
    submit(&mut state, &deployer, 2, "Kaggle").unwrap();
    let all = state.query_user_proofs(&deployer, None);
    assert_eq!(all.len(), 2);
    let kaggle = state.query_user_proofs(&deployer, Some(String::from("Kaggle")));
    assert_eq!(kaggle.len(), 1);
    assert_eq!(kaggle[0].platform, "Kaggle");
    assert_eq!(kaggle[0].username, "octocat");
    assert!(kaggle[0].verified);
    let none = state.query_user_proofs(&String::from("nobody"), None);
    assert!(none.is_empty());
}

#[test]
fn query_proof_by_id() {
    let (deployer, mut state) = fresh(None);
    submit(&mut state, &deployer, 5, "GitHub").unwrap();
    let p = state
        .query_proof(&String::from("deployer:GitHub:5"))
        .expect("proof exists");
    assert_eq!(p.user, "deployer");
    assert_eq!(p.timestamp, 5);
    assert_eq!(p.proof_hash, hash32());
    assert!(state.query_proof(&String::from("missing:id:0")).is_none());
}

#[test]
fn execute_dispatches_store_proof() {
    let (deployer, mut state) = fresh(None);
    let r = state.execute(
        &deployer,
        77,
        ExecuteMsg::StoreProof {
            platform: String::from("LeetCode"),
            username: String::from("octocat"),
            skill_data: String::from("{}"),
            proof_hash: hash32(),
            metadata: Some(String::from("note")),
        },
    );
    assert!(matches!(r, Ok(ExecuteReply::ProofStored { .. })));
    let p = state.query_user_proofs(&deployer, None);
    assert_eq!(p[0].metadata, Some(String::from("note")));
}
