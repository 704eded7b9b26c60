//! The library's laws: properties that hold of every input, stated over
//! the operations' post relations and the pure transition functions,
//! and proved from what the contracts state.

use vstd::prelude::*;

use crate::board::{
    gathered_entries, insert_desc, leaderboard_view, lemma_gathered_len, lemma_insert_desc_len,
    lemma_sort_desc_len, rerank, sort_desc, spec_clamp_limit, take_limit,
};
use crate::contract::{add_endorsement_post, mint_post, store_proof_post};
use crate::error::ContractError;
use crate::msg::{EntryView, ExecuteReply};
use crate::state::{
    ids_at, nft_at, rep_after_given, rep_after_proof, rep_after_received, rep_at, rep_or_new,
    views_of, NftView, RepView, State,
};
use crate::text::{id_of, is_blank};

verus! {

/// A proof submission whose hash is shorter than 32 characters always
/// fails and changes nothing; when the checks before it pass — a
/// supported platform, a non-blank username and skill data — the error
/// is `InvalidProofHash`.
pub proof fn lemma_short_hash_rejected(
    pre: State,
    post: State,
    sender: Seq<char>,
    time: u64,
    platform: String,
    username: String,
    skill_data: String,
    proof_hash: String,
    metadata: Option<String>,
    r: Result<ExecuteReply, ContractError>,
)
    requires
        store_proof_post(
            pre,
            post,
            sender,
            time,
            platform,
            username,
            skill_data,
            proof_hash,
            metadata,
            r,
        ),
        proof_hash@.len() < 32,
    ensures
        post == pre,
        r is Err,
        pre.config@.supported_platforms.contains(platform@) && !is_blank(username@) && !is_blank(
            skill_data@,
        ) ==> r == Err::<ExecuteReply, ContractError>(ContractError::InvalidProofHash {}),
{
}

/// A proof on a platform new to the user raises the score by exactly
/// 35 (10 base and 25 new-platform bonus); a proof on a platform the
/// user already proved on raises it by exactly 10.
pub proof fn lemma_proof_score_delta(r: RepView, platform: Seq<char>, time: int)
    ensures
        !r.platforms.contains(platform) ==> rep_after_proof(r, platform, time).score == r.score
            + 35,
        r.platforms.contains(platform) ==> rep_after_proof(r, platform, time).score == r.score
            + 10,
{
}

/// A user with no reputation record yet scores exactly 35 on their
/// first proof: the fresh record has no proved platform.
pub proof fn lemma_first_proof_score(user: Seq<char>, platform: Seq<char>, time: int)
    ensures
        rep_after_proof(rep_or_new(None, user, time), platform, time).score == 35,
{
    assert(!rep_or_new(None, user, time).platforms.contains(platform));
}

/// An accepted endorsement adds exactly its weight to the endorsee's
/// score and exactly 5 to the endorser's.
pub proof fn lemma_endorsement_score_delta(er: RepView, sr: RepView, weight: int, time: int)
    ensures
        rep_after_received(er, weight, time).score == er.score + weight,
        rep_after_given(sr, time).score == sr.score + 5,
{
}

/// An endorsement whose weight is 0 or above 100, between two distinct
/// users, is rejected with `InvalidEndorsementWeight` and changes
/// nothing.
pub proof fn lemma_endorsement_weight_rejected(
    pre: State,
    post: State,
    sender: Seq<char>,
    time: u64,
    endorsee: String,
    skill: String,
    message: String,
    weight: u32,
    r: Result<ExecuteReply, ContractError>,
)
    requires
        add_endorsement_post(pre, post, sender, time, endorsee, skill, message, weight, r),
        sender != endorsee@,
        weight == 0 || weight > 100,
    ensures
        post == pre,
        r == Err::<ExecuteReply, ContractError>(ContractError::InvalidEndorsementWeight { weight }),
{
}

/// A self-endorsement is rejected with `SelfEndorsement` and changes
/// nothing, whatever the endorser's reputation.
pub proof fn lemma_self_endorsement_rejected(
    pre: State,
    post: State,
    sender: Seq<char>,
    time: u64,
    endorsee: String,
    skill: String,
    message: String,
    weight: u32,
    r: Result<ExecuteReply, ContractError>,
)
    requires
        add_endorsement_post(pre, post, sender, time, endorsee, skill, message, weight, r),
        sender == endorsee@,
    ensures
        post == pre,
        r == Err::<ExecuteReply, ContractError>(ContractError::SelfEndorsement {}),
{
}

/// The endorsing gate: with a valid weight and distinct users, an
/// endorser with no reputation record, or one whose score is below 50,
/// is rejected with `InsufficientReputation` and changes nothing; one
/// whose score is 50 or more succeeds.
pub proof fn lemma_endorsement_gate(
    pre: State,
    post: State,
    sender: Seq<char>,
    time: u64,
    endorsee: String,
    skill: String,
    message: String,
    weight: u32,
    r: Result<ExecuteReply, ContractError>,
)
    requires
        add_endorsement_post(pre, post, sender, time, endorsee, skill, message, weight, r),
        sender != endorsee@,
        1 <= weight <= 100,
    ensures
        match rep_at(pre.reputations@, sender) {
            None => post == pre && r == Err::<ExecuteReply, ContractError>(
                ContractError::InsufficientReputation {},
            ),
            Some(rp) => {
                &&& rp.score < 50 ==> post == pre && r == Err::<ExecuteReply, ContractError>(
                    ContractError::InsufficientReputation {},
                )
                &&& rp.score >= 50 ==> r is Ok
            },
        },
{
}

/// Minting the same (recipient, platform, level) triple twice leaves
/// one badge record under the shared id, holding the second mint's
/// fields, while the recipient's badge index lists the id twice.
pub proof fn lemma_remint_overwrites(
    s0: State,
    s1: State,
    s2: State,
    sender1: Seq<char>,
    sender2: Seq<char>,
    t1: u64,
    t2: u64,
    recipient1: String,
    recipient2: String,
    platform1: String,
    platform2: String,
    level: u32,
    uri1: String,
    uri2: String,
    r1: Result<ExecuteReply, ContractError>,
    r2: Result<ExecuteReply, ContractError>,
)
    requires
        mint_post(s0, s1, sender1, t1, recipient1, platform1, level, uri1, r1),
        mint_post(s1, s2, sender2, t2, recipient2, platform2, level, uri2, r2),
        r1 is Ok,
        r2 is Ok,
        recipient1@ == recipient2@,
        platform1@ == platform2@,
    ensures
        ({
            let id = id_of(recipient1@, platform1@, level as nat);
            &&& s2.nfts@.dom() == s0.nfts@.dom().insert(id)
            &&& nft_at(s2.nfts@, id) == Some(
                NftView {
                    token_id: id,
                    owner: recipient2@,
                    platform: platform2@,
                    skill_level: level as int,
                    token_uri: uri2@,
                    created_at: t2 as int,
                    last_updated: t2 as int,
                    proof_count: 1,
                },
            )
            &&& ids_at(s2.user_nfts@, recipient1@) == ids_at(s0.user_nfts@, recipient1@).push(
                id,
            ).push(id)
        }),
{
    let id = id_of(recipient1@, platform1@, level as nat);
    assert(s2.nfts@.dom() =~= s0.nfts@.dom().insert(id));
}

/// A reputation record's platform set has no duplicate and stays
/// within the configured allowlist.
pub open spec fn rep_consistent(r: RepView, supported: Seq<Seq<char>>) -> bool {
    &&& forall|i: int, j: int| 0 <= i < j < r.platforms.len() ==> r.platforms[i] != r.platforms[j]
    &&& forall|i: int| 0 <= i < r.platforms.len() ==> supported.contains(#[trigger] r.platforms[i])
}

/// A stats record counts exactly its distinct submitters.
pub open spec fn stats_consistent(st: crate::state::StatsView) -> bool {
    &&& st.total_users == st.top_users.len()
    &&& forall|i: int, j: int| 0 <= i < j < st.top_users.len() ==> st.top_users[i]
        != st.top_users[j]
}

/// The cross-store invariants: every member of a membership list has a
/// reputation record, every reputation's platform set is duplicate-free
/// and within the allowlist, and every stats record counts exactly its
/// distinct submitters.
pub open spec fn consistent(s: State) -> bool {
    &&& forall|p: Seq<char>, i: int|
        0 <= i < ids_at(s.platform_boards@, p).len() ==> s.reputations@.contains_key(
            #[trigger] ids_at(s.platform_boards@, p)[i],
        )
    &&& forall|i: int|
        0 <= i < views_of(s.global_board@).len() ==> s.reputations@.contains_key(
            #[trigger] views_of(s.global_board@)[i],
        )
    &&& forall|u: Seq<char>|
        #[trigger] s.reputations@.contains_key(u) ==> rep_consistent(
            s.reputations@[u]@,
            s.config@.supported_platforms,
        )
    &&& forall|p: Seq<char>|
        #[trigger] s.platform_stats@.contains_key(p) ==> stats_consistent(s.platform_stats@[p]@)
    &&& forall|id: Seq<char>| #[trigger] s.proofs@.contains_key(id) ==> {
        &&& s.reputations@.contains_key(s.proofs@[id]@.user)
        &&& s.reputations@[s.proofs@[id]@.user]@.platforms.contains(s.proofs@[id]@.platform)
    }
}

/// A state whose stores are all empty is consistent; initialization
/// establishes the invariant.
pub proof fn lemma_empty_state_consistent(s: State)
    requires
        s.proofs@ == Map::<Seq<char>, crate::state::SkillProof>::empty(),
        s.reputations@ == Map::<Seq<char>, crate::state::UserReputation>::empty(),
        s.platform_stats@ == Map::<Seq<char>, crate::state::PlatformStats>::empty(),
        s.platform_boards@ == Map::<Seq<char>, Vec<String>>::empty(),
        s.global_board@ == Seq::<String>::empty(),
    ensures
        consistent(s),
{
}

/// A proof submission preserves the cross-store invariants.
pub proof fn lemma_store_proof_preserves_consistency(
    pre: State,
    post: State,
    sender: Seq<char>,
    time: u64,
    platform: String,
    username: String,
    skill_data: String,
    proof_hash: String,
    metadata: Option<String>,
    r: Result<ExecuteReply, ContractError>,
)
    requires
        consistent(pre),
        store_proof_post(
            pre,
            post,
            sender,
            time,
            platform,
            username,
            skill_data,
            proof_hash,
            metadata,
            r,
        ),
    ensures
        consistent(post),
{
    if r is Ok {
        let supported = pre.config@.supported_platforms;
        assert(post.config@.supported_platforms == supported);
        assert(post.reputations@.contains_key(sender));

        // Membership lists: only the submitted platform's may change,
        // and it gains the sender alone; the sender now has a record.
        assert forall|p: Seq<char>, i: int|
            0 <= i < ids_at(post.platform_boards@, p).len() implies post.reputations@.contains_key(
            ids_at(post.platform_boards@, p)[i],
        ) by {
            if p != platform@ {
                if pre.platform_boards@.contains_key(p) {
                    assert(post.platform_boards@[p] == pre.platform_boards@[p]);
                } else {
                    if post.platform_boards@.contains_key(p) {
                        assert(pre.platform_boards@.contains_key(p));
                    }
                }
                assert(ids_at(post.platform_boards@, p) == ids_at(pre.platform_boards@, p));
            } else {
                if ids_at(pre.platform_boards@, platform@).contains(sender) {
                    assert(ids_at(post.platform_boards@, p) == ids_at(pre.platform_boards@, p));
                } else {
                    assert(ids_at(post.platform_boards@, p) == ids_at(
                        pre.platform_boards@,
                        p,
                    ).push(sender));
                }
            }
            let u = ids_at(post.platform_boards@, p)[i];
            if u != sender {
                assert(pre.reputations@.contains_key(u));
            }
        }

        // The global list gains at most the sender.
        assert forall|i: int|
            0 <= i < views_of(post.global_board@).len() implies post.reputations@.contains_key(
            views_of(post.global_board@)[i],
        ) by {
            let u = views_of(post.global_board@)[i];
            if views_of(pre.global_board@).contains(sender) {
                assert(post.global_board == pre.global_board);
            } else {
                assert(views_of(post.global_board@) == views_of(pre.global_board@).push(sender));
            }
            if u != sender {
                assert(views_of(pre.global_board@).contains(u));
                let j = choose|j: int|
                    0 <= j < views_of(pre.global_board@).len() && views_of(pre.global_board@)[j]
                        == u;
                assert(pre.reputations@.contains_key(u));
            }
        }

        // Reputations: only the sender's record changes, and its
        // platform set gains at most the (supported) platform.
        assert forall|u: Seq<char>| post.reputations@.contains_key(u) implies rep_consistent(
            post.reputations@[u]@,
            post.config@.supported_platforms,
        ) by {
            if u != sender {
                assert(pre.reputations@.contains_key(u));
                assert(post.reputations@[u] == pre.reputations@[u]);
            } else {
                let rep0 = rep_or_new(rep_at(pre.reputations@, sender), sender, time as int);
                let rep1 = rep_after_proof(rep0, platform@, time as int);
                assert(post.reputations@[u]@ == rep1);
                assert(rep_consistent(rep0, supported));
                assert(supported.contains(platform@));
                if !rep0.platforms.contains(platform@) {
                    assert(rep1.platforms == rep0.platforms.push(platform@));
                    assert forall|i: int, j: int|
                        0 <= i < j < rep1.platforms.len() implies rep1.platforms[i]
                        != rep1.platforms[j] by {
                        if j < rep1.platforms.len() - 1 {
                            assert(rep1.platforms[i] == rep0.platforms[i]);
                            assert(rep1.platforms[j] == rep0.platforms[j]);
                        } else {
                            assert(rep1.platforms[j] == platform@);
                            assert(rep0.platforms.contains(rep0.platforms[i]));
                        }
                    }
                }
            }
        }

        // Stats: only the platform's record changes, by one proof and
        // at most one new distinct submitter.
        assert forall|p: Seq<char>| post.platform_stats@.contains_key(p) implies stats_consistent(
            post.platform_stats@[p]@,
        ) by {
            if p != platform@ {
                assert(pre.platform_stats@.contains_key(p));
                assert(post.platform_stats@[p] == pre.platform_stats@[p]);
            } else {
                let st0 = crate::state::stats_or_new(
                    crate::state::stats_at(pre.platform_stats@, platform@),
                    platform@,
                );
                let st1 = crate::state::stats_after_proof(st0, sender);
                assert(post.platform_stats@[p]@ == st1);
                assert(stats_consistent(st0));
                if !st0.top_users.contains(sender) {
                    assert(st1.top_users == st0.top_users.push(sender));
                    assert forall|i: int, j: int|
                        0 <= i < j < st1.top_users.len() implies st1.top_users[i]
                        != st1.top_users[j] by {
                        if j < st1.top_users.len() - 1 {
                            assert(st1.top_users[i] == st0.top_users[i]);
                            assert(st1.top_users[j] == st0.top_users[j]);
                        } else {
                            assert(st1.top_users[j] == sender);
                            assert(st0.top_users.contains(st0.top_users[i]));
                        }
                    }
                }
            }
        }

        // Proof records: the new one names the sender and a platform
        // the sender's updated record now lists; an old one's submitter
        // keeps their record, whose platform set only grew.
        let new_id = crate::text::id_of(sender, platform@, time as nat);
        let rep0 = rep_or_new(rep_at(pre.reputations@, sender), sender, time as int);
        let rep1 = rep_after_proof(rep0, platform@, time as int);
        assert forall|id: Seq<char>| post.proofs@.contains_key(id) implies {
            &&& post.reputations@.contains_key(post.proofs@[id]@.user)
            &&& post.reputations@[post.proofs@[id]@.user]@.platforms.contains(
                post.proofs@[id]@.platform,
            )
        } by {
            assert(rep1.platforms.contains(platform@)) by {
                if rep0.platforms.contains(platform@) {
                } else {
                    assert(rep1.platforms == rep0.platforms.push(platform@));
                    assert(rep1.platforms[rep1.platforms.len() - 1] == platform@);
                }
            }
            if id == new_id {
                assert(post.proofs@[id]@.user == sender);
                assert(post.proofs@[id]@.platform == platform@);
                assert(post.reputations@[sender]@ == rep1);
            } else {
                assert(pre.proofs@.contains_key(id));
                assert(post.proofs@[id] == pre.proofs@[id]);
                let u = pre.proofs@[id]@.user;
                let pl = pre.proofs@[id]@.platform;
                assert(pre.reputations@.contains_key(u));
                assert(pre.reputations@[u]@.platforms.contains(pl));
                if u != sender {
                    assert(post.reputations@[u] == pre.reputations@[u]);
                } else {
                    assert(rep0 == pre.reputations@[sender]@);
                    assert(rep1.platforms.contains(pl)) by {
                        let k = choose|k: int|
                            0 <= k < rep0.platforms.len() && rep0.platforms[k] == pl;
                        assert(rep1.platforms[k] == pl);
                    }
                }
            }
        }
    }
}

/// An endorsement preserves the cross-store invariants: the membership
/// lists and stats are untouched, and neither touched reputation's
/// platform set changes.
pub proof fn lemma_endorsement_preserves_consistency(
    pre: State,
    post: State,
    sender: Seq<char>,
    time: u64,
    endorsee: String,
    skill: String,
    message: String,
    weight: u32,
    r: Result<ExecuteReply, ContractError>,
)
    requires
        consistent(pre),
        add_endorsement_post(pre, post, sender, time, endorsee, skill, message, weight, r),
    ensures
        consistent(post),
{
    if r is Ok {
        assert(post.config@.supported_platforms == pre.config@.supported_platforms);
        assert forall|u: Seq<char>| post.reputations@.contains_key(u) implies rep_consistent(
            post.reputations@[u]@,
            post.config@.supported_platforms,
        ) by {
            if u == sender {
                let srep0 = rep_or_new(rep_at(pre.reputations@, sender), sender, time as int);
                assert(post.reputations@[u]@ == rep_after_given(srep0, time as int));
                assert(rep_consistent(srep0, pre.config@.supported_platforms));
            } else if u == endorsee@ {
                let erep0 = rep_or_new(rep_at(pre.reputations@, endorsee@), endorsee@, time as int);
                assert(post.reputations@[u]@ == rep_after_received(
                    erep0,
                    weight as int,
                    time as int,
                ));
                assert(rep_consistent(erep0, pre.config@.supported_platforms));
            } else {
                assert(pre.reputations@.contains_key(u));
                assert(post.reputations@[u] == pre.reputations@[u]);
            }
        }
        assert forall|p: Seq<char>, i: int|
            0 <= i < ids_at(post.platform_boards@, p).len() implies post.reputations@.contains_key(
            ids_at(post.platform_boards@, p)[i],
        ) by {
            assert(ids_at(post.platform_boards@, p) == ids_at(pre.platform_boards@, p));
            assert(pre.reputations@.contains_key(ids_at(pre.platform_boards@, p)[i]));
        }
        assert forall|i: int|
            0 <= i < views_of(post.global_board@).len() implies post.reputations@.contains_key(
            views_of(post.global_board@)[i],
        ) by {
            assert(pre.reputations@.contains_key(views_of(pre.global_board@)[i]));
        }
        assert forall|id: Seq<char>| post.proofs@.contains_key(id) implies {
            &&& post.reputations@.contains_key(post.proofs@[id]@.user)
            &&& post.reputations@[post.proofs@[id]@.user]@.platforms.contains(
                post.proofs@[id]@.platform,
            )
        } by {
            let u = pre.proofs@[id]@.user;
            assert(pre.reputations@.contains_key(u));
            if u == sender {
                let srep0 = rep_or_new(rep_at(pre.reputations@, sender), sender, time as int);
                assert(post.reputations@[u]@.platforms == srep0.platforms);
            } else if u == endorsee@ {
                let erep0 = rep_or_new(rep_at(pre.reputations@, endorsee@), endorsee@, time as int);
                assert(post.reputations@[u]@.platforms == erep0.platforms);
            } else {
                assert(post.reputations@[u] == pre.reputations@[u]);
            }
        }
    }
}

/// The remaining operations — a badge mint, an administrative score
/// adjustment, an admin change — preserve the cross-store invariants:
/// none touches a platform set, a stats record or a membership list.
pub proof fn lemma_admin_ops_preserve_consistency(
    pre: State,
    post: State,
    sender: Seq<char>,
    time: u64,
    msg: crate::msg::ExecuteMsg,
    r: Result<ExecuteReply, ContractError>,
)
    requires
        consistent(pre),
        match msg {
            crate::msg::ExecuteMsg::MintSkillNft { recipient, platform, skill_level, token_uri } =>
                mint_post(pre, post, sender, time, recipient, platform, skill_level, token_uri, r),
            crate::msg::ExecuteMsg::UpdateReputation { user, score_delta, .. } =>
                crate::contract::update_reputation_post(
                pre,
                post,
                sender,
                time,
                user,
                score_delta,
                r,
            ),
            crate::msg::ExecuteMsg::UpdateAdmin { new_admin } =>
                crate::contract::update_admin_post(pre, post, sender, new_admin, r),
            _ => false,
        },
    ensures
        consistent(post),
{
    if r is Ok {
        assert(post.config@.supported_platforms == pre.config@.supported_platforms);
        assert forall|u: Seq<char>| post.reputations@.contains_key(u) implies rep_consistent(
            post.reputations@[u]@,
            post.config@.supported_platforms,
        ) by {
            match msg {
                crate::msg::ExecuteMsg::UpdateReputation { user, score_delta, .. } => {
                    if u == user@ {
                        let rep0 = rep_or_new(rep_at(pre.reputations@, user@), user@, time as int);
                        assert(post.reputations@[u]@ == crate::state::rep_after_adjust(
                            rep0,
                            score_delta as int,
                            time as int,
                        ));
                        assert(rep_consistent(rep0, pre.config@.supported_platforms));
                    } else {
                        assert(pre.reputations@.contains_key(u));
                        assert(post.reputations@[u] == pre.reputations@[u]);
                    }
                },
                _ => {
                    assert(post.reputations == pre.reputations);
                },
            }
        }
        assert forall|p: Seq<char>, i: int|
            0 <= i < ids_at(post.platform_boards@, p).len() implies post.reputations@.contains_key(
            ids_at(post.platform_boards@, p)[i],
        ) by {
            assert(ids_at(post.platform_boards@, p) == ids_at(pre.platform_boards@, p));
            assert(pre.reputations@.contains_key(ids_at(pre.platform_boards@, p)[i]));
        }
        assert forall|i: int|
            0 <= i < views_of(post.global_board@).len() implies post.reputations@.contains_key(
            views_of(post.global_board@)[i],
        ) by {
            assert(pre.reputations@.contains_key(views_of(pre.global_board@)[i]));
        }
        assert forall|p: Seq<char>| post.platform_stats@.contains_key(p) implies stats_consistent(
            post.platform_stats@[p]@,
        ) by {
            assert(pre.platform_stats@.contains_key(p));
            assert(post.platform_stats@[p] == pre.platform_stats@[p]);
        }
        assert forall|id: Seq<char>| post.proofs@.contains_key(id) implies {
            &&& post.reputations@.contains_key(post.proofs@[id]@.user)
            &&& post.reputations@[post.proofs@[id]@.user]@.platforms.contains(
                post.proofs@[id]@.platform,
            )
        } by {
            let u = pre.proofs@[id]@.user;
            assert(pre.reputations@.contains_key(u));
            match msg {
                crate::msg::ExecuteMsg::UpdateReputation { user, score_delta, .. } => {
                    if u == user@ {
                        let rep0 = rep_or_new(rep_at(pre.reputations@, user@), user@, time as int);
                        assert(post.reputations@[u]@.platforms == rep0.platforms);
                    } else {
                        assert(post.reputations@[u] == pre.reputations@[u]);
                    }
                },
                _ => {
                    assert(post.reputations == pre.reputations);
                },
            }
        }
    }
}

/// Scores never increase along a leaderboard answer.
pub open spec fn sorted_desc(s: Seq<EntryView>) -> bool {
    forall|i: int, j: int| 0 <= i < j < s.len() ==> s[i].score >= s[j].score
}

proof fn lemma_insert_desc_elems(e: EntryView, s: Seq<EntryView>, k: int)
    requires
        0 <= k < insert_desc(e, s).len(),
    ensures
        insert_desc(e, s)[k] == e || (exists|m: int|
            0 <= m < s.len() && s[m] == insert_desc(e, s)[k]),
    decreases s.len(),
{
    lemma_insert_desc_len(e, s);
    if s.len() == 0 {
    } else if e.score > s[0].score {
        if k > 0 {
            assert(insert_desc(e, s)[k] == s[k - 1]);
        }
    } else {
        let d = s.drop_first();
        if k == 0 {
            assert(insert_desc(e, s)[0] == s[0]);
        } else {
            lemma_insert_desc_len(e, d);
            lemma_insert_desc_elems(e, d, k - 1);
            assert(insert_desc(e, s)[k] == insert_desc(e, d)[k - 1]);
            if insert_desc(e, d)[k - 1] != e {
                let m = choose|m: int| 0 <= m < d.len() && d[m] == insert_desc(e, d)[k - 1];
                assert(s[m + 1] == d[m]);
            }
        }
    }
}

/// Inserting into a score-descending list keeps it score-descending.
pub proof fn lemma_insert_desc_sorted(e: EntryView, s: Seq<EntryView>)
    requires
        sorted_desc(s),
    ensures
        sorted_desc(insert_desc(e, s)),
    decreases s.len(),
{
    lemma_insert_desc_len(e, s);
    if s.len() == 0 {
    } else if e.score > s[0].score {
        let t = seq![e] + s;
        assert forall|i: int, j: int| 0 <= i < j < t.len() implies t[i].score >= t[j].score by {
            assert(t[j] == s[j - 1]);
            if i > 0 {
                assert(t[i] == s[i - 1]);
            }
        }
    } else {
        let d = s.drop_first();
        assert(sorted_desc(d)) by {
            assert forall|i: int, j: int| 0 <= i < j < d.len() implies d[i].score >= d[j].score by {
                assert(d[i] == s[i + 1]);
                assert(d[j] == s[j + 1]);
            }
        }
        lemma_insert_desc_sorted(e, d);
        lemma_insert_desc_len(e, d);
        let u = insert_desc(e, d);
        let t = seq![s[0]] + u;
        assert forall|k: int| 0 <= k < u.len() implies s[0].score >= u[k].score by {
            lemma_insert_desc_elems(e, d, k);
            if u[k] != e {
                let m = choose|m: int| 0 <= m < d.len() && d[m] == u[k];
                assert(d[m] == s[m + 1]);
                assert(s[0].score >= s[m + 1].score);
            }
        }
        assert forall|i: int, j: int| 0 <= i < j < t.len() implies t[i].score >= t[j].score by {
            assert(t[j] == u[j - 1]);
            if i > 0 {
                assert(t[i] == u[i - 1]);
            }
        }
        assert(insert_desc(e, s) == t);
    }
}

/// The stable sort leaves the rows score-descending.
pub proof fn lemma_sort_desc_sorted(s: Seq<EntryView>)
    ensures
        sorted_desc(sort_desc(s)),
    decreases s.len(),
{
    if s.len() > 0 {
        lemma_sort_desc_sorted(s.drop_last());
        lemma_insert_desc_sorted(s.last(), sort_desc(s.drop_last()));
    }
}

proof fn lemma_insert_desc_multiset(e: EntryView, s: Seq<EntryView>)
    ensures
        insert_desc(e, s).to_multiset() == s.to_multiset().insert(e),
    decreases s.len(),
{
    broadcast use vstd::seq_lib::group_to_multiset_ensures;
    broadcast use vstd::multiset::group_multiset_axioms;

    if s.len() == 0 {
        assert(seq![e] =~= Seq::<EntryView>::empty().push(e));
        assert(Seq::<EntryView>::empty() =~= s);
    } else if e.score > s[0].score {
        assert(seq![e] + s =~= s.insert(0, e));
    } else {
        let d = s.drop_first();
        lemma_insert_desc_multiset(e, d);
        let u = insert_desc(e, d);
        assert(seq![s[0]] + u =~= u.insert(0, s[0]));
        assert(s =~= d.insert(0, s[0]));
        assert(d.to_multiset().insert(e).insert(s[0]) =~= d.to_multiset().insert(s[0]).insert(e));
    }
}

/// The stable sort returns exactly the rows it was given, as a
/// multiset: nothing is added, dropped or duplicated.
pub proof fn lemma_sort_desc_permutes(s: Seq<EntryView>)
    ensures
        sort_desc(s).to_multiset() == s.to_multiset(),
    decreases s.len(),
{
    broadcast use vstd::seq_lib::group_to_multiset_ensures;

    if s.len() > 0 {
        let d = s.drop_last();
        lemma_sort_desc_permutes(d);
        lemma_insert_desc_multiset(s.last(), sort_desc(d));
        assert(s =~= d.push(s.last()));
    }
}

/// A leaderboard answer is ordered by score, descending, and carries
/// the ranks 1..=N in order.
pub proof fn lemma_leaderboard_ordered(s: State, platform: Option<Seq<char>>, limit: Option<u32>)
    ensures
        ({
            let b = leaderboard_view(s, platform, limit);
            &&& sorted_desc(b)
            &&& forall|i: int| 0 <= i < b.len() ==> #[trigger] b[i].rank == i + 1
        }),
{
    let members = match platform {
        Some(p) => ids_at(s.platform_boards@, p),
        None => views_of(s.global_board@),
    };
    let g = gathered_entries(
        s.reputations@,
        take_limit(members, spec_clamp_limit(limit) as int),
    );
    lemma_sort_desc_sorted(g);
    let t = sort_desc(g);
    let b = rerank(t);
    assert forall|i: int, j: int| 0 <= i < j < b.len() implies b[i].score >= b[j].score by {
        assert(b[i].score == t[i].score);
        assert(b[j].score == t[j].score);
    }
}

/// A leaderboard answer never exceeds the clamped limit: a limit of 0
/// yields an empty answer, and every limit is clamped to at most 1000
/// rows.
pub proof fn lemma_leaderboard_clamped(s: State, platform: Option<Seq<char>>, limit: Option<u32>)
    ensures
        leaderboard_view(s, platform, limit).len() <= spec_clamp_limit(limit),
        spec_clamp_limit(limit) <= 1000,
        limit == Some(0u32) ==> leaderboard_view(s, platform, limit).len() == 0,
{
    let members = match platform {
        Some(p) => ids_at(s.platform_boards@, p),
        None => views_of(s.global_board@),
    };
    let tm = take_limit(members, spec_clamp_limit(limit) as int);
    lemma_gathered_len(s.reputations@, tm);
    lemma_sort_desc_len(gathered_entries(s.reputations@, tm));
}

} // verus!
