//! Endorsements: the weight bounds, the self-endorsement ban, the
//! reputation gate, and both score deltas.

use skillexify_proof::error::ContractError;
use skillexify_proof::msg::{ExecuteReply, InstantiateMsg};
use skillexify_proof::state::State;

fn hash32() -> String {
    String::from("0123456789abcdef0123456789abcdef")
}

/// A state where `carol` has a score of 70 (two platforms proved).
fn with_endorser() -> (String, State) {
    let deployer = String::from("deployer");
    let mut state = State::instantiate(&deployer, InstantiateMsg { admin: None });
    let carol = String::from("carol");
    for (t, p) in [(1u64, "GitHub"), (2u64, "Kaggle")] {
        state
            .execute_store_proof(
                &carol,
                t,
                String::from(p),
                String::from("carol"),
                String::from("data"),
                hash32(),
                None,
            )
            .unwrap();
    }
    assert_eq!(state.query_reputation(&carol).unwrap().score, 70);
    (carol, state)
}

fn endorse(
    state: &mut State,
    who: &String,
    endorsee: &str,
    weight: u32,
) -> Result<ExecuteReply, ContractError> {
    state.execute_add_endorsement(
        who,
        50,
        String::from(endorsee),
        String::from("rust"),
        String::from("solid work"),
        weight,
    )
}

#[test]
fn weight_zero_rejected() {
    let (carol, mut state) = with_endorser();
    let r = endorse(&mut state, &carol, "dave", 0);
    assert!(matches!(
        r,
        Err(ContractError::InvalidEndorsementWeight { weight: 0 })
    ));
    assert!(state.query_reputation(&String::from("dave")).is_none());
}

#[test]
fn weight_101_rejected() {
    let (carol, mut state) = with_endorser();
    let r = endorse(&mut state, &carol, "dave", 101);
    assert!(matches!(
        r,
        Err(ContractError::InvalidEndorsementWeight { weight: 101 })
    ));
}

#[test]
fn weight_100_adds_100_and_5() {
    let (carol, mut state) = with_endorser();
    let r = endorse(&mut state, &carol, "dave", 100);
    assert!(matches!(r, Ok(ExecuteReply::EndorsementAdded { .. })));
    let dave = state.query_reputation(&String::from("dave")).unwrap();
    assert_eq!(dave.score, 100);
    assert_eq!(dave.endorsements_received, 1);
    let carol_rep = state.query_reputation(&carol).unwrap();
    assert_eq!(carol_rep.score, 75);
    assert_eq!(carol_rep.endorsements_given, 1);
}

#[test]
fn self_endorsement_rejected_even_with_high_score() {
    let (carol, mut state) = with_endorser();
    let r = endorse(&mut state, &carol, "carol", 10);
    assert!(matches!(r, Err(ContractError::SelfEndorsement {})));
    assert_eq!(state.query_reputation(&carol).unwrap().score, 70);
}

#[test]
fn endorser_without_record_rejected() {
    let deployer = String::from("deployer");
    let mut state = State::instantiate(&deployer, InstantiateMsg { admin: None });
    let ghost_user = String::from("nobody");
    let r = endorse(&mut state, &ghost_user, "dave", 10);
    assert!(matches!(r, Err(ContractError::InsufficientReputation {})));
}

#[test]
fn endorser_below_50_rejected_at_50_accepted() {
    let deployer = String::from("deployer");
    let mut state = State::instantiate(&deployer, InstantiateMsg { admin: None });
    // One proof puts the deployer at 35; an admin adjustment steers the
    // score exactly.
    state
        .execute_store_proof(
            &deployer,
            1,
            String::from("GitHub"),
            String::from("me"),
            String::from("data"),
            hash32(),
            None,
        )
        .unwrap();
    state
        .execute_update_reputation(&deployer, 2, deployer.clone(), 14, String::from("test"))
        .unwrap();
    assert_eq!(state.query_reputation(&deployer).unwrap().score, 49);
    let r = endorse(&mut state, &deployer, "dave", 10);
    assert!(matches!(r, Err(ContractError::InsufficientReputation {})));

    state
        .execute_update_reputation(&deployer, 3, deployer.clone(), 1, String::from("test"))
        .unwrap();
    assert_eq!(state.query_reputation(&deployer).unwrap().score, 50);
    let r = endorse(&mut state, &deployer, "dave", 10);
    assert!(matches!(r, Ok(ExecuteReply::EndorsementAdded { .. })));
    assert_eq!(state.query_reputation(&String::from("dave")).unwrap().score, 10);
}

#[test]
fn endorsement_ids_and_query_filter() {
    let (carol, mut state) = with_endorser();
    endorse(&mut state, &carol, "dave", 20).unwrap();
    state
        .execute_add_endorsement(
            &carol,
            51,
            String::from("dave"),
            String::from("go"),
            String::from("nice"),
            5,
        )
        .unwrap();
    let dave = String::from("dave");
    let all = state.query_endorsements(&dave, None);
    assert_eq!(all.len(), 2);
    assert_eq!(all[0].id, "carol:dave:50");
    assert_eq!(all[0].endorser, "carol");
    assert_eq!(all[0].endorsee, "dave");
    assert_eq!(all[0].weight, 20);
    let rust_only = state.query_endorsements(&dave, Some(String::from("rust")));
    assert_eq!(rust_only.len(), 1);
    assert_eq!(rust_only[0].skill, "rust");
    // The endorser's own index stays empty: only the endorsee's is fed.
    assert!(state.query_endorsements(&carol, None).is_empty());
}

#[test]
fn admin_adjustment_requires_admin_and_record() {
    let deployer = String::from("deployer");
    let mut state = State::instantiate(&deployer, InstantiateMsg { admin: None });
    let outsider = String::from("outsider");
    let r = state.execute_update_reputation(&outsider, 1, deployer.clone(), 5, String::from("r"));
    assert!(matches!(r, Err(ContractError::Unauthorized {})));
    let r = state.execute_update_reputation(&deployer, 1, String::from("ghost"), 5, String::from("r"));
    match r {
        Err(ContractError::UserNotFound { user }) => assert_eq!(user, "ghost"),
        _ => panic!("expected UserNotFound"),
    }
}

#[test]
fn admin_adjustment_may_go_negative() {
    let deployer = String::from("deployer");
    let mut state = State::instantiate(&deployer, InstantiateMsg { admin: None });
    state
        .execute_store_proof(
            &deployer,
            1,
            String::from("GitHub"),
            String::from("me"),
            String::from("data"),
            hash32(),
            None,
        )
        .unwrap();
    state
        .execute_update_reputation(&deployer, 2, deployer.clone(), -100, String::from("penalty"))
        .unwrap();
    assert_eq!(state.query_reputation(&deployer).unwrap().score, -65);
}

#[test]
fn update_admin_replaces_admin() {
    let deployer = String::from("deployer");
    let mut state = State::instantiate(&deployer, InstantiateMsg { admin: None });
    let outsider = String::from("outsider");
    let r = state.execute_update_admin(&outsider, String::from("mallory"));
    assert!(matches!(r, Err(ContractError::Unauthorized {})));
    state.execute_update_admin(&deployer, String::from("boss")).unwrap();
    assert_eq!(state.query_config().admin, "boss");
    // The old admin lost the right.
    let r = state.execute_update_admin(&deployer, String::from("deployer"));
    assert!(matches!(r, Err(ContractError::Unauthorized {})));
}
