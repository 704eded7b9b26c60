//! Badges: the admin gate, the level and platform checks, and the
//! overwrite-on-re-mint behaviour with its duplicated index entry.

use skillexify_proof::error::ContractError;
use skillexify_proof::msg::{ExecuteReply, InstantiateMsg};
use skillexify_proof::state::State;

fn fresh() -> (String, State) {
    let deployer = String::from("deployer");
    let state = State::instantiate(&deployer, InstantiateMsg { admin: None });
    (deployer, state)
}

fn mint(
    state: &mut State,
    who: &String,
    time: u64,
    level: u32,
    uri: &str,
) -> Result<ExecuteReply, ContractError> {
    state.execute_mint_skill_nft(
        who,
        time,
        String::from("bob"),
        String::from("GitHub"),
        level,
        String::from(uri),
    )
}

#[test]
fn non_admin_mint_unauthorized_and_no_badge() {
    let (_deployer, mut state) = fresh();
    let outsider = String::from("outsider");
    let r = mint(&mut state, &outsider, 1, 2, "ipfs://a");
    assert!(matches!(r, Err(ContractError::Unauthorized {})));
    assert!(state.query_user_nfts(&String::from("bob")).is_empty());
}

#[test]
fn skill_level_bounds() {
    let (deployer, mut state) = fresh();
    let r = mint(&mut state, &deployer, 1, 0, "ipfs://a");
    assert!(matches!(r, Err(ContractError::InvalidSkillLevel { level: 0 })));
    let r = mint(&mut state, &deployer, 1, 5, "ipfs://a");
    assert!(matches!(r, Err(ContractError::InvalidSkillLevel { level: 5 })));
    let r = mint(&mut state, &deployer, 1, 1, "ipfs://a");
    assert!(matches!(r, Ok(ExecuteReply::NftMinted { .. })));
    let r = mint(&mut state, &deployer, 1, 4, "ipfs://a");
    assert!(matches!(r, Ok(ExecuteReply::NftMinted { .. })));
}

#[test]
fn mint_platform_must_be_supported() {
    let (deployer, mut state) = fresh();
    let r = state.execute_mint_skill_nft(
        &deployer,
        1,
        String::from("bob"),
        String::from("Codeforces"),
        2,
        String::from("ipfs://a"),
    );
    match r {
        Err(ContractError::UnsupportedPlatform { platform }) => assert_eq!(platform, "Codeforces"),
        _ => panic!("expected UnsupportedPlatform"),
    }
}

#[test]
fn mint_stores_badge_under_composite_id() {
    let (deployer, mut state) = fresh();
    let r = mint(&mut state, &deployer, 42, 3, "ipfs://gold");
    match r {
        Ok(ExecuteReply::NftMinted { token_id }) => assert_eq!(token_id, "bob:GitHub:3"),
        _ => panic!("expected NftMinted"),
    }
    let bob = String::from("bob");
    let nfts = state.query_user_nfts(&bob);
    assert_eq!(nfts.len(), 1);
    assert_eq!(nfts[0].token_id, "bob:GitHub:3");
    assert_eq!(nfts[0].owner, "bob");
    assert_eq!(nfts[0].platform, "GitHub");
    assert_eq!(nfts[0].skill_level, 3);
    assert_eq!(nfts[0].token_uri, "ipfs://gold");
    assert_eq!(nfts[0].created_at, 42);
}

#[test]
fn remint_overwrites_record_but_index_lists_id_twice() {
    let (deployer, mut state) = fresh();
    mint(&mut state, &deployer, 1, 2, "ipfs://old").unwrap();
    mint(&mut state, &deployer, 9, 2, "ipfs://new").unwrap();
    let bob = String::from("bob");
    let nfts = state.query_user_nfts(&bob);
    // The index lists the shared id twice; both entries read the single,
    // overwritten record.
    assert_eq!(nfts.len(), 2);
    assert_eq!(nfts[0].token_id, "bob:GitHub:2");
    assert_eq!(nfts[1].token_id, "bob:GitHub:2");
    assert_eq!(nfts[0].token_uri, "ipfs://new");
    assert_eq!(nfts[1].token_uri, "ipfs://new");
    assert_eq!(nfts[0].created_at, 9);
}

#[test]
fn different_levels_make_different_badges() {
    let (deployer, mut state) = fresh();
    mint(&mut state, &deployer, 1, 2, "ipfs://a").unwrap();
    mint(&mut state, &deployer, 2, 3, "ipfs://b").unwrap();
    let bob = String::from("bob");
    let nfts = state.query_user_nfts(&bob);
    assert_eq!(nfts.len(), 2);
    assert_ne!(nfts[0].token_id, nfts[1].token_id);
}
