//! The operations: each mutating command validates, then updates every
//! affected store as one atomic step, and each contract pins the whole
//! effect — which error comes back on which inputs, and the exact new
//! value of every store on success.

use vstd::prelude::*;

use crate::error::ContractError;
use crate::msg::{ExecuteMsg, ExecuteReply, InstantiateMsg};
use crate::state::{
    appended_at, clone_reputation, clone_stats, ids_at, lemma_contains_views, lemma_views_push,
    opt_view, rep_after_adjust, rep_after_proof, rep_at, rep_or_new, stats_after_proof, stats_at,
    rep_after_given, rep_after_received, stats_or_new, updated_at, views_of, Config, ConfigView,
    Endorsement, PlatformStats, SkillNft, SkillProof, State, UserReputation,
};
use crate::text::{clone_string_vec, compose_id, id_of, str_is_blank, vec_contains_string};

verus! {

/// The five platform names every configuration starts with.
pub open spec fn default_platforms() -> Seq<Seq<char>> {
    seq!["LeetCode"@, "GitHub"@, "Kaggle"@, "HackerRank"@, "Stack Overflow"@]
}

/// The record stores other than the configuration are unchanged.
pub open spec fn same_stores(pre: State, post: State) -> bool {
    &&& post.proofs == pre.proofs
    &&& post.reputations == pre.reputations
    &&& post.endorsements == pre.endorsements
    &&& post.nfts == pre.nfts
    &&& post.platform_stats == pre.platform_stats
    &&& post.user_proofs == pre.user_proofs
    &&& post.user_endorsements == pre.user_endorsements
    &&& post.user_nfts == pre.user_nfts
    &&& post.platform_boards == pre.platform_boards
    &&& post.global_board == pre.global_board
}

/// What replacing the admin does: `Unauthorized` for any caller but the
/// admin, and on success the new admin is the only change.
pub open spec fn update_admin_post(
    pre: State,
    post: State,
    sender: Seq<char>,
    new_admin: String,
    r: Result<ExecuteReply, ContractError>,
) -> bool {
    match r {
        Err(e) => {
            &&& post == pre
            &&& sender != pre.config@.admin
            &&& e == (ContractError::Unauthorized {})
        },
        Ok(reply) => {
            &&& sender == pre.config@.admin
            &&& reply == (ExecuteReply::AdminUpdated {})
            &&& post.config@ == ConfigView { admin: new_admin@, ..pre.config@ }
            &&& same_stores(pre, post)
        },
    }
}

/// What an administrative score adjustment does: `Unauthorized` for any
/// caller but the admin, `UserNotFound` when the target has no
/// reputation record, and on success the delta and the timestamp are
/// the only changes, to that record alone.
pub open spec fn update_reputation_post(
    pre: State,
    post: State,
    sender: Seq<char>,
    time: u64,
    user: String,
    score_delta: i32,
    r: Result<ExecuteReply, ContractError>,
) -> bool {
    match r {
        Err(e) => {
            &&& post == pre
            &&& if sender != pre.config@.admin {
                e == (ContractError::Unauthorized {})
            } else {
                &&& !pre.reputations@.contains_key(user@)
                &&& e == (ContractError::UserNotFound { user })
            }
        },
        Ok(reply) => {
            &&& sender == pre.config@.admin
            &&& pre.reputations@.contains_key(user@)
            &&& reply == (ExecuteReply::ReputationUpdated {})
            &&& updated_at(
                pre.reputations@,
                post.reputations@,
                user@,
                rep_after_adjust(
                    rep_or_new(rep_at(pre.reputations@, user@), user@, time as int),
                    score_delta as int,
                    time as int,
                ),
            )
            &&& post.config == pre.config
            &&& post.proofs == pre.proofs
            &&& post.endorsements == pre.endorsements
            &&& post.nfts == pre.nfts
            &&& post.platform_stats == pre.platform_stats
            &&& post.user_proofs == pre.user_proofs
            &&& post.user_endorsements == pre.user_endorsements
            &&& post.user_nfts == pre.user_nfts
            &&& post.platform_boards == pre.platform_boards
            &&& post.global_board == pre.global_board
        },
    }
}

/// The record a proof submission stores.
pub open spec fn proof_record(
    id: Seq<char>,
    sender: Seq<char>,
    platform: Seq<char>,
    username: Seq<char>,
    skill_data: Seq<char>,
    proof_hash: Seq<char>,
    time: u64,
    metadata: Option<Seq<char>>,
) -> crate::state::ProofView {
    crate::state::ProofView {
        id,
        user: sender,
        platform,
        username,
        skill_data,
        proof_hash,
        timestamp: time as int,
        verified: true,
        metadata,
    }
}

/// The validation outcome of a proof submission, in the order the
/// checks run: platform allowlist, username, skill data, hash length.
pub open spec fn store_proof_err(
    pre: State,
    platform: String,
    username: Seq<char>,
    skill_data: Seq<char>,
    proof_hash: Seq<char>,
) -> Option<ContractError> {
    if !pre.config@.supported_platforms.contains(platform@) {
        Some(ContractError::UnsupportedPlatform { platform })
    } else if crate::text::is_blank(username) {
        Some(ContractError::EmptyUsername {})
    } else if crate::text::is_blank(skill_data) {
        Some(ContractError::InvalidSkillData {})
    } else if proof_hash.len() < 32 {
        Some(ContractError::InvalidProofHash {})
    } else {
        None
    }
}

/// A membership list gained the user at its end unless it already held
/// them; when it already did, the whole store is untouched.
pub open spec fn board_updated(
    m0: Map<Seq<char>, Vec<String>>,
    m1: Map<Seq<char>, Vec<String>>,
    p: Seq<char>,
    user: Seq<char>,
) -> bool {
    if ids_at(m0, p).contains(user) {
        m1 == m0
    } else {
        appended_at(m0, m1, p, user)
    }
}

/// The global membership list gained the user at its end unless it
/// already held them.
pub open spec fn global_updated(b0: Vec<String>, b1: Vec<String>, user: Seq<char>) -> bool {
    if views_of(b0@).contains(user) {
        b1 == b0
    } else {
        views_of(b1@) == views_of(b0@).push(user)
    }
}

/// What a proof submission does. On any validation failure the state is
/// untouched and the error is the first failed check's. On success the
/// proof is stored under its composite id, the submitter's proof index
/// gains the id, the submitter's reputation takes the proof deltas, the
/// platform's stats take theirs, the total proof count steps by one,
/// and both membership lists gain a first-time submitter.
pub open spec fn store_proof_post(
    pre: State,
    post: State,
    sender: Seq<char>,
    time: u64,
    platform: String,
    username: String,
    skill_data: String,
    proof_hash: String,
    metadata: Option<String>,
    r: Result<ExecuteReply, ContractError>,
) -> bool {
    let id = id_of(sender, platform@, time as nat);
    let rep0 = rep_or_new(rep_at(pre.reputations@, sender), sender, time as int);
    match r {
        Err(e) => {
            &&& post == pre
            &&& Some(e) == store_proof_err(pre, platform, username@, skill_data@, proof_hash@)
        },
        Ok(reply) => {
            &&& store_proof_err(pre, platform, username@, skill_data@, proof_hash@) is None
            &&& match reply {
                ExecuteReply::ProofStored { proof_id, score_gained } => {
                    &&& proof_id@ == id
                    &&& score_gained == if rep0.platforms.contains(platform@) {
                        10int
                    } else {
                        35int
                    }
                },
                _ => false,
            }
            &&& updated_at(
                pre.proofs@,
                post.proofs@,
                id,
                proof_record(
                    id,
                    sender,
                    platform@,
                    username@,
                    skill_data@,
                    proof_hash@,
                    time,
                    opt_view(metadata),
                ),
            )
            &&& appended_at(pre.user_proofs@, post.user_proofs@, sender, id)
            &&& updated_at(
                pre.reputations@,
                post.reputations@,
                sender,
                rep_after_proof(rep0, platform@, time as int),
            )
            &&& updated_at(
                pre.platform_stats@,
                post.platform_stats@,
                platform@,
                stats_after_proof(
                    stats_or_new(stats_at(pre.platform_stats@, platform@), platform@),
                    sender,
                ),
            )
            &&& post.config@ == ConfigView {
                total_proofs: pre.config@.total_proofs + 1,
                ..pre.config@
            }
            &&& board_updated(pre.platform_boards@, post.platform_boards@, platform@, sender)
            &&& global_updated(pre.global_board, post.global_board, sender)
            &&& post.endorsements == pre.endorsements
            &&& post.nfts == pre.nfts
            &&& post.user_endorsements == pre.user_endorsements
            &&& post.user_nfts == pre.user_nfts
        },
    }
}

/// The validation outcome of an endorsement, in the order the checks
/// run: no self-endorsement, a weight in 1..=100, then an endorser who
/// already holds a reputation record with a score of at least 50.
pub open spec fn endorsement_err(
    pre: State,
    sender: Seq<char>,
    endorsee: Seq<char>,
    weight: u32,
) -> Option<ContractError> {
    if sender == endorsee {
        Some(ContractError::SelfEndorsement {})
    } else if weight == 0 || weight > 100 {
        Some(ContractError::InvalidEndorsementWeight { weight })
    } else {
        match rep_at(pre.reputations@, sender) {
            None => Some(ContractError::InsufficientReputation {}),
            Some(rp) => if rp.score < 50 {
                Some(ContractError::InsufficientReputation {})
            } else {
                None
            },
        }
    }
}

/// What an endorsement does. On any validation failure the state is
/// untouched and the error is the first failed check's. On success the
/// endorsement is stored under its composite id, the endorsee's
/// endorsement index gains the id, the endorsee's reputation takes the
/// weight, and the endorser's takes the flat giving bonus.
pub open spec fn add_endorsement_post(
    pre: State,
    post: State,
    sender: Seq<char>,
    time: u64,
    endorsee: String,
    skill: String,
    message: String,
    weight: u32,
    r: Result<ExecuteReply, ContractError>,
) -> bool {
    let id = id_of(sender, endorsee@, time as nat);
    let erep0 = rep_or_new(rep_at(pre.reputations@, endorsee@), endorsee@, time as int);
    let srep0 = rep_or_new(rep_at(pre.reputations@, sender), sender, time as int);
    match r {
        Err(e) => {
            &&& post == pre
            &&& Some(e) == endorsement_err(pre, sender, endorsee@, weight)
        },
        Ok(reply) => {
            &&& endorsement_err(pre, sender, endorsee@, weight) is None
            &&& pre.reputations@.contains_key(sender)
            &&& match reply {
                ExecuteReply::EndorsementAdded { endorsement_id } => endorsement_id@ == id,
                _ => false,
            }
            &&& updated_at(
                pre.endorsements@,
                post.endorsements@,
                id,
                crate::state::EndorsementView {
                    id,
                    endorser: sender,
                    endorsee: endorsee@,
                    skill: skill@,
                    message: message@,
                    weight: weight as int,
                    timestamp: time as int,
                },
            )
            &&& appended_at(pre.user_endorsements@, post.user_endorsements@, endorsee@, id)
            &&& post.reputations@.dom() == pre.reputations@.dom().insert(endorsee@)
            &&& rep_at(post.reputations@, endorsee@) == Some(
                rep_after_received(erep0, weight as int, time as int),
            )
            &&& rep_at(post.reputations@, sender) == Some(rep_after_given(srep0, time as int))
            &&& forall|x: Seq<char>|
                x != sender && x != endorsee@ && pre.reputations@.contains_key(x)
                    ==> post.reputations@.contains_key(x) && post.reputations@[x]
                    == pre.reputations@[x]
            &&& post.config == pre.config
            &&& post.proofs == pre.proofs
            &&& post.nfts == pre.nfts
            &&& post.platform_stats == pre.platform_stats
            &&& post.user_proofs == pre.user_proofs
            &&& post.user_nfts == pre.user_nfts
            &&& post.platform_boards == pre.platform_boards
            &&& post.global_board == pre.global_board
        },
    }
}

/// The validation outcome of a badge mint, in the order the checks run:
/// the caller must be the admin, the level in 1..=4, the platform on
/// the allowlist.
pub open spec fn mint_err(
    pre: State,
    sender: Seq<char>,
    platform: String,
    skill_level: u32,
) -> Option<ContractError> {
    if sender != pre.config@.admin {
        Some(ContractError::Unauthorized {})
    } else if skill_level < 1 || skill_level > 4 {
        Some(ContractError::InvalidSkillLevel { level: skill_level })
    } else if !pre.config@.supported_platforms.contains(platform@) {
        Some(ContractError::UnsupportedPlatform { platform })
    } else {
        None
    }
}

/// What a badge mint does. On any validation failure the state is
/// untouched. On success the badge is stored under its composite id —
/// re-minting the same triple overwrites the record in place — while
/// the recipient's badge index gains the id unconditionally, so a
/// re-mint lists the id twice.
pub open spec fn mint_post(
    pre: State,
    post: State,
    sender: Seq<char>,
    time: u64,
    recipient: String,
    platform: String,
    skill_level: u32,
    token_uri: String,
    r: Result<ExecuteReply, ContractError>,
) -> bool {
    let id = id_of(recipient@, platform@, skill_level as nat);
    match r {
        Err(e) => {
            &&& post == pre
            &&& Some(e) == mint_err(pre, sender, platform, skill_level)
        },
        Ok(reply) => {
            &&& mint_err(pre, sender, platform, skill_level) is None
            &&& match reply {
                ExecuteReply::NftMinted { token_id } => token_id@ == id,
                _ => false,
            }
            &&& updated_at(
                pre.nfts@,
                post.nfts@,
                id,
                crate::state::NftView {
                    token_id: id,
                    owner: recipient@,
                    platform: platform@,
                    skill_level: skill_level as int,
                    token_uri: token_uri@,
                    created_at: time as int,
                    last_updated: time as int,
                    proof_count: 1,
                },
            )
            &&& appended_at(pre.user_nfts@, post.user_nfts@, recipient@, id)
            &&& post.config == pre.config
            &&& post.proofs == pre.proofs
            &&& post.reputations == pre.reputations
            &&& post.endorsements == pre.endorsements
            &&& post.platform_stats == pre.platform_stats
            &&& post.user_proofs == pre.user_proofs
            &&& post.user_endorsements == pre.user_endorsements
            &&& post.platform_boards == pre.platform_boards
            &&& post.global_board == pre.global_board
        },
    }
}

/// Whether an optional filter accepts a name.
pub open spec fn filter_matches(f: Option<Seq<char>>, name: Seq<char>) -> bool {
    match f {
        None => true,
        Some(w) => name == w,
    }
}

/// The proofs an index's ids lead to, in index order: a missing
/// referenced record is skipped, and an optional platform filter keeps
/// only its platform's proofs.
pub open spec fn gathered_proofs(
    m: Map<Seq<char>, SkillProof>,
    ids: Seq<Seq<char>>,
    pf: Option<Seq<char>>,
) -> Seq<crate::state::ProofView>
    decreases ids.len(),
{
    if ids.len() == 0 {
        Seq::empty()
    } else {
        let rest = gathered_proofs(m, ids.drop_last(), pf);
        match crate::state::proof_at(m, ids.last()) {
            Some(p) => if filter_matches(pf, p.platform) {
                rest.push(p)
            } else {
                rest
            },
            None => rest,
        }
    }
}

/// The endorsements an index's ids lead to, in index order, with an
/// optional skill filter.
pub open spec fn gathered_endorsements(
    m: Map<Seq<char>, Endorsement>,
    ids: Seq<Seq<char>>,
    sk: Option<Seq<char>>,
) -> Seq<crate::state::EndorsementView>
    decreases ids.len(),
{
    if ids.len() == 0 {
        Seq::empty()
    } else {
        let rest = gathered_endorsements(m, ids.drop_last(), sk);
        match crate::state::endorsement_at(m, ids.last()) {
            Some(e) => if filter_matches(sk, e.skill) {
                rest.push(e)
            } else {
                rest
            },
            None => rest,
        }
    }
}

/// The badges an index's ids lead to, in index order; a re-minted badge
/// appears once per index entry.
pub open spec fn gathered_nfts(m: Map<Seq<char>, SkillNft>, ids: Seq<Seq<char>>) -> Seq<
    crate::msg::NftSummary,
>
    decreases ids.len(),
{
    if ids.len() == 0 {
        Seq::empty()
    } else {
        let rest = gathered_nfts(m, ids.drop_last());
        match crate::state::nft_at(m, ids.last()) {
            Some(n) => rest.push(crate::msg::nft_summary(n)),
            None => rest,
        }
    }
}

impl State {
    /// An adjustment of this size cannot overflow the target's score.
    pub open spec fn adjust_fits(self, user: Seq<char>, score_delta: int) -> bool {
        match rep_at(self.reputations@, user) {
            Some(r) => i32::MIN <= r.score + score_delta <= i32::MAX,
            None => true,
        }
    }

    /// Creates the initial state: the given admin (or the initializing
    /// caller), every counter at zero, the fixed platform allowlist,
    /// and every store empty.
    pub fn instantiate(sender: &String, msg: InstantiateMsg) -> (s: State)
        ensures
            s.config@.admin == match msg.admin {
                Some(a) => a@,
                None => sender@,
            },
            s.config@.total_proofs == 0,
            s.config@.total_users == 0,
            s.config@.supported_platforms == default_platforms(),
            s.proofs@ == Map::<Seq<char>, crate::state::SkillProof>::empty(),
            s.reputations@ == Map::<Seq<char>, UserReputation>::empty(),
            s.endorsements@ == Map::<Seq<char>, crate::state::Endorsement>::empty(),
            s.nfts@ == Map::<Seq<char>, crate::state::SkillNft>::empty(),
            s.platform_stats@ == Map::<Seq<char>, crate::state::PlatformStats>::empty(),
            s.user_proofs@ == Map::<Seq<char>, Vec<String>>::empty(),
            s.user_endorsements@ == Map::<Seq<char>, Vec<String>>::empty(),
            s.user_nfts@ == Map::<Seq<char>, Vec<String>>::empty(),
            s.platform_boards@ == Map::<Seq<char>, Vec<String>>::empty(),
            s.global_board@ == Seq::<String>::empty(),
    {
        let admin = match msg.admin {
            Some(a) => a,
            None => sender.clone(),
        };
        let mut platforms: Vec<String> = Vec::new();
        platforms.push(String::from_str("LeetCode"));
        platforms.push(String::from_str("GitHub"));
        platforms.push(String::from_str("Kaggle"));
        platforms.push(String::from_str("HackerRank"));
        platforms.push(String::from_str("Stack Overflow"));
        assert(views_of(platforms@) =~= default_platforms());
        State {
            config: Config { admin, total_proofs: 0, total_users: 0, supported_platforms: platforms },
            proofs: crate::smap::StringMap::new(),
            reputations: crate::smap::StringMap::new(),
            endorsements: crate::smap::StringMap::new(),
            nfts: crate::smap::StringMap::new(),
            platform_stats: crate::smap::StringMap::new(),
            user_proofs: crate::smap::StringMap::new(),
            user_endorsements: crate::smap::StringMap::new(),
            user_nfts: crate::smap::StringMap::new(),
            platform_boards: crate::smap::StringMap::new(),
            global_board: Vec::new(),
        }
    }

    /// Replaces the admin; only the current admin may.
    pub fn execute_update_admin(&mut self, sender: &String, new_admin: String) -> (r: Result<
        ExecuteReply,
        ContractError,
    >)
        ensures
            update_admin_post(*old(self), *final(self), sender@, new_admin, r),
    {
        if !sender.eq(&self.config.admin) {
            return Err(ContractError::Unauthorized {});
        }
        self.config.admin = new_admin;
        Ok(ExecuteReply::AdminUpdated {})
    }

    /// Adjusts a user's score administratively; only the admin may, and
    /// only for a user who already has a reputation record.
    pub fn execute_update_reputation(
        &mut self,
        sender: &String,
        time: u64,
        user: String,
        score_delta: i32,
        reason: String,
    ) -> (r: Result<ExecuteReply, ContractError>)
        requires
            old(self).adjust_fits(user@, score_delta as int),
        ensures
            update_reputation_post(*old(self), *final(self), sender@, time, user, score_delta, r),
    {
        // The reason is an audit attribute for the caller's log; it is
        // not persisted on the record.
        let _ = reason;
        if !sender.eq(&self.config.admin) {
            return Err(ContractError::Unauthorized {});
        }
        let mut rep = match self.reputations.get(&user) {
            Some(r) => clone_reputation(r),
            None => {
                return Err(ContractError::UserNotFound { user });
            },
        };
        rep.score = rep.score + score_delta;
        rep.last_updated = time;
        let ghost uv = user@;
        self.reputations.insert(user, rep);
        proof {
            assert(self.reputations@.dom() =~= old(self).reputations@.dom().insert(uv));
        }
        Ok(ExecuteReply::ReputationUpdated {})
    }

    /// The counters a proof submission steps cannot overflow.
    pub open spec fn store_proof_fits(self, sender: Seq<char>, platform: Seq<char>) -> bool {
        &&& self.config@.total_proofs + 1 <= u32::MAX
        &&& match rep_at(self.reputations@, sender) {
            Some(r) => r.score + 35 <= i32::MAX && r.total_proofs + 1 <= u32::MAX,
            None => true,
        }
        &&& match stats_at(self.platform_stats@, platform) {
            Some(s) => s.total_proofs + 1 <= u32::MAX && s.total_users + 1 <= u32::MAX,
            None => true,
        }
    }

    /// Records a verified skill proof and applies every derived update
    /// in the same step.
    pub fn execute_store_proof(
        &mut self,
        sender: &String,
        time: u64,
        platform: String,
        username: String,
        skill_data: String,
        proof_hash: String,
        metadata: Option<String>,
    ) -> (r: Result<ExecuteReply, ContractError>)
        requires
            old(self).store_proof_fits(sender@, platform@),
        ensures
            store_proof_post(
                *old(self),
                *final(self),
                sender@,
                time,
                platform,
                username,
                skill_data,
                proof_hash,
                metadata,
                r,
            ),
    {
        proof {
            lemma_contains_views(self.config.supported_platforms@, platform@);
        }
        if !vec_contains_string(&self.config.supported_platforms, &platform) {
            return Err(ContractError::UnsupportedPlatform { platform });
        }
        if str_is_blank(&username) {
            return Err(ContractError::EmptyUsername {});
        }
        if str_is_blank(&skill_data) {
            return Err(ContractError::InvalidSkillData {});
        }
        if proof_hash.as_str().unicode_len() < 32 {
            return Err(ContractError::InvalidProofHash {});
        }
        let proof_id = compose_id(sender, &platform, time);
        let ghost idv = proof_id@;
        let ghost senderv = sender@;

        // The proof record itself.
        let record = SkillProof {
            id: proof_id.clone(),
            user: sender.clone(),
            platform: platform.clone(),
            username,
            skill_data,
            proof_hash,
            timestamp: time,
            verified: true,
            metadata,
        };
        self.proofs.insert(proof_id.clone(), record);
        proof {
            assert(self.proofs@.dom() =~= old(self).proofs@.dom().insert(idv));
        }

        // The submitter's proof index.
        let list0 = match self.user_proofs.get(sender) {
            Some(l) => clone_string_vec(l),
            None => Vec::new(),
        };
        let ghost l0v = list0@;
        proof {
            assert(views_of(l0v) =~= ids_at(self.user_proofs@, senderv));
        }
        let mut list = list0;
        list.push(proof_id.clone());
        proof {
            lemma_views_push(l0v, list@, idv);
        }
        self.user_proofs.insert(sender.clone(), list);
        proof {
            assert(self.user_proofs@.dom() =~= old(self).user_proofs@.dom().insert(senderv));
        }

        // The submitter's reputation.
        let ghost rep0 = rep_or_new(rep_at(old(self).reputations@, senderv), senderv, time as int);
        let mut rep = match self.reputations.get(sender) {
            Some(r) => clone_reputation(r),
            None => UserReputation {
                user: sender.clone(),
                score: 0,
                total_proofs: 0,
                endorsements_received: 0,
                endorsements_given: 0,
                last_updated: time,
                platforms: Vec::new(),
            },
        };
        proof {
            assert(views_of(Seq::<String>::empty()) =~= Seq::<Seq<char>>::empty());
            assert(rep@.platforms == rep0.platforms);
            assert(rep@.score == rep0.score);
            assert(rep@.total_proofs == rep0.total_proofs);
            lemma_contains_views(rep.platforms@, platform@);
        }
        rep.total_proofs = rep.total_proofs + 1;
        rep.score = rep.score + 10;
        rep.last_updated = time;
        let mut gained: u32 = 10;
        let ghost platsv = rep.platforms@;
        if !vec_contains_string(&rep.platforms, &platform) {
            rep.platforms.push(platform.clone());
            proof {
                lemma_views_push(platsv, rep.platforms@, platform@);
            }
            rep.score = rep.score + 25;
            gained = 35;
        }
        proof {
            assert(rep@ == rep_after_proof(rep0, platform@, time as int));
        }
        self.reputations.insert(sender.clone(), rep);
        proof {
            assert(self.reputations@.dom() =~= old(self).reputations@.dom().insert(senderv));
        }

        // The platform's stats.
        let ghost stats0 = stats_or_new(stats_at(old(self).platform_stats@, platform@), platform@);
        let mut stats = match self.platform_stats.get(&platform) {
            Some(s) => clone_stats(s),
            None => PlatformStats {
                platform: platform.clone(),
                total_users: 0,
                total_proofs: 0,
                average_score: 0,
                top_users: Vec::new(),
            },
        };
        proof {
            assert(views_of(Seq::<String>::empty()) =~= Seq::<Seq<char>>::empty());
            assert(stats@ == stats0);
            lemma_contains_views(stats.top_users@, senderv);
        }
        stats.total_proofs = stats.total_proofs + 1;
        let ghost topsv = stats.top_users@;
        if !vec_contains_string(&stats.top_users, sender) {
            stats.total_users = stats.total_users + 1;
            stats.top_users.push(sender.clone());
            proof {
                lemma_views_push(topsv, stats.top_users@, senderv);
            }
        }
        proof {
            assert(stats@ == stats_after_proof(stats0, senderv));
        }
        self.platform_stats.insert(platform.clone(), stats);
        proof {
            assert(self.platform_stats@.dom() =~= old(self).platform_stats@.dom().insert(
                platform@,
            ));
        }

        // The global proof counter.
        self.config.total_proofs = self.config.total_proofs + 1;

        // The platform's membership list, only when the submitter is new
        // to it.
        proof {
            if self.platform_boards@.contains_key(platform@) {
                lemma_contains_views(self.platform_boards@[platform@]@, senderv);
            }
        }
        let board_needs = match self.platform_boards.get(&platform) {
            Some(b) => !vec_contains_string(b, sender),
            None => true,
        };
        if board_needs {
            let board0 = match self.platform_boards.get(&platform) {
                Some(b) => clone_string_vec(b),
                None => Vec::new(),
            };
            let ghost b0v = board0@;
            proof {
                assert(views_of(b0v) =~= ids_at(self.platform_boards@, platform@));
            }
            let mut board = board0;
            board.push(sender.clone());
            proof {
                lemma_views_push(b0v, board@, senderv);
            }
            self.platform_boards.insert(platform.clone(), board);
            proof {
                assert(self.platform_boards@.dom() =~= old(self).platform_boards@.dom().insert(
                    platform@,
                ));
            }
        }

        // The global membership list, only when the submitter is new.
        proof {
            lemma_contains_views(self.global_board@, senderv);
        }
        let ghost g0v = self.global_board@;
        if !vec_contains_string(&self.global_board, sender) {
            self.global_board.push(sender.clone());
            proof {
                lemma_views_push(g0v, self.global_board@, senderv);
            }
        }

        Ok(ExecuteReply::ProofStored { proof_id, score_gained: gained })
    }

    /// The counters an endorsement steps cannot overflow.
    pub open spec fn endorse_fits(self, sender: Seq<char>, endorsee: Seq<char>) -> bool {
        &&& match rep_at(self.reputations@, sender) {
            Some(r) => r.score + 5 <= i32::MAX && r.endorsements_given + 1 <= u32::MAX,
            None => true,
        }
        &&& match rep_at(self.reputations@, endorsee) {
            Some(r) => r.score + 100 <= i32::MAX && r.endorsements_received + 1 <= u32::MAX,
            None => true,
        }
    }

    /// Records a peer endorsement and applies both reputation deltas in
    /// the same step.
    pub fn execute_add_endorsement(
        &mut self,
        sender: &String,
        time: u64,
        endorsee: String,
        skill: String,
        message: String,
        weight: u32,
    ) -> (r: Result<ExecuteReply, ContractError>)
        requires
            old(self).endorse_fits(sender@, endorsee@),
        ensures
            add_endorsement_post(
                *old(self),
                *final(self),
                sender@,
                time,
                endorsee,
                skill,
                message,
                weight,
                r,
            ),
    {
        if sender.eq(&endorsee) {
            return Err(ContractError::SelfEndorsement {});
        }
        if weight == 0 || weight > 100 {
            return Err(ContractError::InvalidEndorsementWeight { weight });
        }
        let mut srep = match self.reputations.get(sender) {
            Some(rp) => clone_reputation(rp),
            None => {
                return Err(ContractError::InsufficientReputation {});
            },
        };
        if srep.score < 50 {
            return Err(ContractError::InsufficientReputation {});
        }
        let ghost senderv = sender@;
        let ghost endorseev = endorsee@;
        let ghost srep0 = rep_or_new(rep_at(old(self).reputations@, senderv), senderv, time as int);
        let endorsement_id = compose_id(sender, &endorsee, time);
        let ghost idv = endorsement_id@;

        // The endorsement record itself.
        let record = Endorsement {
            id: endorsement_id.clone(),
            endorser: sender.clone(),
            endorsee: endorsee.clone(),
            skill,
            message,
            weight,
            timestamp: time,
        };
        self.endorsements.insert(endorsement_id.clone(), record);
        proof {
            assert(self.endorsements@.dom() =~= old(self).endorsements@.dom().insert(idv));
        }

        // The endorsee's endorsement index.
        let list0 = match self.user_endorsements.get(&endorsee) {
            Some(l) => clone_string_vec(l),
            None => Vec::new(),
        };
        let ghost l0v = list0@;
        proof {
            assert(views_of(l0v) =~= ids_at(self.user_endorsements@, endorseev));
        }
        let mut list = list0;
        list.push(endorsement_id.clone());
        proof {
            lemma_views_push(l0v, list@, idv);
        }
        self.user_endorsements.insert(endorsee.clone(), list);
        proof {
            assert(self.user_endorsements@.dom() =~= old(
                self,
            ).user_endorsements@.dom().insert(endorseev));
        }

        // The endorsee's reputation, created on first touch.
        let ghost erep0 = rep_or_new(
            rep_at(old(self).reputations@, endorseev),
            endorseev,
            time as int,
        );
        let mut erep = match self.reputations.get(&endorsee) {
            Some(rp) => clone_reputation(rp),
            None => UserReputation {
                user: endorsee.clone(),
                score: 0,
                total_proofs: 0,
                endorsements_received: 0,
                endorsements_given: 0,
                last_updated: time,
                platforms: Vec::new(),
            },
        };
        proof {
            assert(views_of(Seq::<String>::empty()) =~= Seq::<Seq<char>>::empty());
            assert(erep@ == erep0);
        }
        erep.endorsements_received = erep.endorsements_received + 1;
        erep.score = erep.score + (weight as i32);
        erep.last_updated = time;
        proof {
            assert(erep@ == rep_after_received(erep0, weight as int, time as int));
        }

        // The endorser already holds a record; the threshold check read it.
        srep.endorsements_given = srep.endorsements_given + 1;
        srep.score = srep.score + 5;
        srep.last_updated = time;
        proof {
            assert(srep@ == rep_after_given(srep0, time as int));
        }

        self.reputations.insert(endorsee, erep);
        self.reputations.insert(sender.clone(), srep);
        proof {
            assert(self.reputations@.dom() =~= old(self).reputations@.dom().insert(endorseev));
        }
        Ok(ExecuteReply::EndorsementAdded { endorsement_id })
    }

    /// Mints (or re-mints, overwriting) a skill badge; only the admin
    /// may.
    pub fn execute_mint_skill_nft(
        &mut self,
        sender: &String,
        time: u64,
        recipient: String,
        platform: String,
        skill_level: u32,
        token_uri: String,
    ) -> (r: Result<ExecuteReply, ContractError>)
        ensures
            mint_post(
                *old(self),
                *final(self),
                sender@,
                time,
                recipient,
                platform,
                skill_level,
                token_uri,
                r,
            ),
    {
        if !sender.eq(&self.config.admin) {
            return Err(ContractError::Unauthorized {});
        }
        if skill_level < 1 || skill_level > 4 {
            return Err(ContractError::InvalidSkillLevel { level: skill_level });
        }
        proof {
            lemma_contains_views(self.config.supported_platforms@, platform@);
        }
        if !vec_contains_string(&self.config.supported_platforms, &platform) {
            return Err(ContractError::UnsupportedPlatform { platform });
        }
        let ghost recipientv = recipient@;
        let token_id = compose_id(&recipient, &platform, skill_level as u64);
        let ghost idv = token_id@;

        // The badge record; the same triple always yields the same id,
        // so a re-mint replaces the stored record.
        let nft = SkillNft {
            token_id: token_id.clone(),
            owner: recipient.clone(),
            platform,
            skill_level,
            token_uri,
            created_at: time,
            last_updated: time,
            proof_count: 1,
        };
        self.nfts.insert(token_id.clone(), nft);
        proof {
            assert(self.nfts@.dom() =~= old(self).nfts@.dom().insert(idv));
        }

        // The recipient's badge index, appended to even on a re-mint.
        let list0 = match self.user_nfts.get(&recipient) {
            Some(l) => clone_string_vec(l),
            None => Vec::new(),
        };
        let ghost l0v = list0@;
        proof {
            assert(views_of(l0v) =~= ids_at(self.user_nfts@, recipientv));
        }
        let mut list = list0;
        list.push(token_id.clone());
        proof {
            lemma_views_push(l0v, list@, idv);
        }
        self.user_nfts.insert(recipient, list);
        proof {
            assert(self.user_nfts@.dom() =~= old(self).user_nfts@.dom().insert(recipientv));
        }
        Ok(ExecuteReply::NftMinted { token_id })
    }

    /// Dispatches one mutating command to its operation; each command's
    /// whole effect is the matching operation's.
    pub fn execute(&mut self, sender: &String, time: u64, msg: ExecuteMsg) -> (r: Result<
        ExecuteReply,
        ContractError,
    >)
        requires
            match msg {
                ExecuteMsg::StoreProof { platform, .. } => old(self).store_proof_fits(
                    sender@,
                    platform@,
                ),
                ExecuteMsg::UpdateReputation { user, score_delta, .. } => old(self).adjust_fits(
                    user@,
                    score_delta as int,
                ),
                ExecuteMsg::AddEndorsement { endorsee, .. } => old(self).endorse_fits(
                    sender@,
                    endorsee@,
                ),
                _ => true,
            },
        ensures
            match msg {
                ExecuteMsg::StoreProof { platform, username, skill_data, proof_hash, metadata } =>
                    store_proof_post(
                    *old(self),
                    *final(self),
                    sender@,
                    time,
                    platform,
                    username,
                    skill_data,
                    proof_hash,
                    metadata,
                    r,
                ),
                ExecuteMsg::UpdateReputation { user, score_delta, reason } =>
                    update_reputation_post(
                    *old(self),
                    *final(self),
                    sender@,
                    time,
                    user,
                    score_delta,
                    r,
                ),
                ExecuteMsg::AddEndorsement { endorsee, skill, message, weight } =>
                    add_endorsement_post(
                    *old(self),
                    *final(self),
                    sender@,
                    time,
                    endorsee,
                    skill,
                    message,
                    weight,
                    r,
                ),
                ExecuteMsg::MintSkillNft { recipient, platform, skill_level, token_uri } =>
                    mint_post(
                    *old(self),
                    *final(self),
                    sender@,
                    time,
                    recipient,
                    platform,
                    skill_level,
                    token_uri,
                    r,
                ),
                ExecuteMsg::UpdateAdmin { new_admin } => update_admin_post(
                    *old(self),
                    *final(self),
                    sender@,
                    new_admin,
                    r,
                ),
            },
    {
        match msg {
            ExecuteMsg::StoreProof { platform, username, skill_data, proof_hash, metadata } => self
                .execute_store_proof(sender, time, platform, username, skill_data, proof_hash, metadata),
            ExecuteMsg::UpdateReputation { user, score_delta, reason } => self.execute_update_reputation(
                sender,
                time,
                user,
                score_delta,
                reason,
            ),
            ExecuteMsg::AddEndorsement { endorsee, skill, message, weight } => self
                .execute_add_endorsement(sender, time, endorsee, skill, message, weight),
            ExecuteMsg::MintSkillNft { recipient, platform, skill_level, token_uri } => self
                .execute_mint_skill_nft(sender, time, recipient, platform, skill_level, token_uri),
            ExecuteMsg::UpdateAdmin { new_admin } => self.execute_update_admin(sender, new_admin),
        }
    }

    /// Returns every proof the user's index references, in index order,
    /// optionally filtered to one platform; a missing referenced record
    /// is skipped rather than surfaced.
    pub fn query_user_proofs(&self, user: &String, platform: Option<String>) -> (r: Vec<
        crate::msg::ProofResponse,
    >)
        ensures
            crate::msg::proof_views(r@) == gathered_proofs(
                self.proofs@,
                ids_at(self.user_proofs@, user@),
                opt_view(platform),
            ),
    {
        let empty: Vec<String> = Vec::new();
        let ids: &Vec<String> = match self.user_proofs.get(user) {
            Some(l) => l,
            None => &empty,
        };
        proof {
            assert(views_of(ids@) =~= ids_at(self.user_proofs@, user@));
        }
        let ghost idsv = views_of(ids@);
        let mut out: Vec<crate::msg::ProofResponse> = Vec::new();
        let mut i: usize = 0;
        #[verifier::loop_isolation(false)]
        while i < ids.len()
            invariant
                i <= ids@.len(),
                crate::msg::proof_views(out@) == gathered_proofs(
                    self.proofs@,
                    idsv.take(i as int),
                    opt_view(platform),
                ),
            decreases ids@.len() - i,
        {
            let ghost prev = out@;
            match self.proofs.get(&ids[i]) {
                Some(p) => {
                    let keep = match &platform {
                        None => true,
                        Some(f) => f.eq(&p.platform),
                    };
                    if keep {
                        out.push(crate::msg::proof_response(p));
                        proof {
                            crate::msg::lemma_proof_views_push(prev, out@, p@);
                        }
                    }
                },
                None => {},
            }
            proof {
                assert(idsv.take(i as int + 1).drop_last() =~= idsv.take(i as int));
                assert(idsv[i as int] == ids@[i as int]@);
            }
            i = i + 1;
        }
        proof {
            assert(idsv.take(i as int) =~= idsv);
        }
        out
    }

    /// Returns the proof stored under an id, if any.
    pub fn query_proof(&self, proof_id: &String) -> (r: Option<crate::msg::ProofResponse>)
        ensures
            match (r, crate::state::proof_at(self.proofs@, proof_id@)) {
                (Some(resp), Some(p)) => resp@ == p,
                (None, None) => true,
                _ => false,
            },
    {
        match self.proofs.get(proof_id) {
            Some(p) => Some(crate::msg::proof_response(p)),
            None => None,
        }
    }

    /// Returns the user's reputation record, if any.
    pub fn query_reputation(&self, user: &String) -> (r: Option<crate::msg::ReputationResponse>)
        ensures
            match (r, rep_at(self.reputations@, user@)) {
                (Some(resp), Some(rv)) => resp@ == crate::msg::rep_summary(rv),
                (None, None) => true,
                _ => false,
            },
    {
        match self.reputations.get(user) {
            Some(rp) => Some(crate::msg::reputation_response(rp)),
            None => None,
        }
    }

    /// Returns every endorsement the user's index references, in index
    /// order, optionally filtered to one skill; a missing referenced
    /// record is skipped rather than surfaced.
    pub fn query_endorsements(&self, user: &String, skill: Option<String>) -> (r: Vec<
        crate::msg::EndorsementResponse,
    >)
        ensures
            crate::msg::endorsement_views(r@) == gathered_endorsements(
                self.endorsements@,
                ids_at(self.user_endorsements@, user@),
                opt_view(skill),
            ),
    {
        let empty: Vec<String> = Vec::new();
        let ids: &Vec<String> = match self.user_endorsements.get(user) {
            Some(l) => l,
            None => &empty,
        };
        proof {
            assert(views_of(ids@) =~= ids_at(self.user_endorsements@, user@));
        }
        let ghost idsv = views_of(ids@);
        let mut out: Vec<crate::msg::EndorsementResponse> = Vec::new();
        let mut i: usize = 0;
        #[verifier::loop_isolation(false)]
        while i < ids.len()
            invariant
                i <= ids@.len(),
                crate::msg::endorsement_views(out@) == gathered_endorsements(
                    self.endorsements@,
                    idsv.take(i as int),
                    opt_view(skill),
                ),
            decreases ids@.len() - i,
        {
            let ghost prev = out@;
            match self.endorsements.get(&ids[i]) {
                Some(e) => {
                    let keep = match &skill {
                        None => true,
                        Some(f) => f.eq(&e.skill),
                    };
                    if keep {
                        out.push(crate::msg::endorsement_response(e));
                        proof {
                            crate::msg::lemma_endorsement_views_push(prev, out@, e@);
                        }
                    }
                },
                None => {},
            }
            proof {
                assert(idsv.take(i as int + 1).drop_last() =~= idsv.take(i as int));
                assert(idsv[i as int] == ids@[i as int]@);
            }
            i = i + 1;
        }
        proof {
            assert(idsv.take(i as int) =~= idsv);
        }
        out
    }

    /// Returns every badge the user's index references, in index order;
    /// a re-minted badge appears once per index entry.
    pub fn query_user_nfts(&self, user: &String) -> (r: Vec<crate::msg::NftResponse>)
        ensures
            crate::msg::nft_views(r@) == gathered_nfts(self.nfts@, ids_at(self.user_nfts@, user@)),
    {
        let empty: Vec<String> = Vec::new();
        let ids: &Vec<String> = match self.user_nfts.get(user) {
            Some(l) => l,
            None => &empty,
        };
        proof {
            assert(views_of(ids@) =~= ids_at(self.user_nfts@, user@));
        }
        let ghost idsv = views_of(ids@);
        let mut out: Vec<crate::msg::NftResponse> = Vec::new();
        let mut i: usize = 0;
        #[verifier::loop_isolation(false)]
        while i < ids.len()
            invariant
                i <= ids@.len(),
                crate::msg::nft_views(out@) == gathered_nfts(self.nfts@, idsv.take(i as int)),
            decreases ids@.len() - i,
        {
            let ghost prev = out@;
            match self.nfts.get(&ids[i]) {
                Some(n) => {
                    out.push(crate::msg::nft_response(n));
                    proof {
                        crate::msg::lemma_nft_views_push(prev, out@, crate::msg::nft_summary(n@));
                    }
                },
                None => {},
            }
            proof {
                assert(idsv.take(i as int + 1).drop_last() =~= idsv.take(i as int));
                assert(idsv[i as int] == ids@[i as int]@);
            }
            i = i + 1;
        }
        proof {
            assert(idsv.take(i as int) =~= idsv);
        }
        out
    }

    /// Returns the platform's stats record, if any.
    pub fn query_platform_stats(&self, platform: &String) -> (r: Option<PlatformStats>)
        ensures
            match (r, stats_at(self.platform_stats@, platform@)) {
                (Some(s), Some(sv)) => s@ == sv,
                (None, None) => true,
                _ => false,
            },
    {
        match self.platform_stats.get(platform) {
            Some(s) => Some(clone_stats(s)),
            None => None,
        }
    }

    /// Returns the configuration.
    pub fn query_config(&self) -> (r: crate::msg::ConfigResponse)
        ensures
            r@ == self.config@,
    {
        crate::msg::config_response(&self.config)
    }

    /// Dispatches one read-only query to its handler; each query's
    /// answer is the matching handler's, in the matching variant.
    pub fn query(&self, msg: crate::msg::QueryMsg) -> (r: crate::msg::QueryAnswer)
        ensures
            match msg {
                crate::msg::QueryMsg::GetUserProofs { user, platform } => match r {
                    crate::msg::QueryAnswer::UserProofs(v) => crate::msg::proof_views(v@)
                        == gathered_proofs(
                        self.proofs@,
                        ids_at(self.user_proofs@, user@),
                        opt_view(platform),
                    ),
                    _ => false,
                },
                crate::msg::QueryMsg::GetProof { proof_id } => match r {
                    crate::msg::QueryAnswer::Proof(o) => match (
                        o,
                        crate::state::proof_at(self.proofs@, proof_id@),
                    ) {
                        (Some(resp), Some(p)) => resp@ == p,
                        (None, None) => true,
                        _ => false,
                    },
                    _ => false,
                },
                crate::msg::QueryMsg::GetReputation { user } => match r {
                    crate::msg::QueryAnswer::Reputation(o) => match (
                        o,
                        rep_at(self.reputations@, user@),
                    ) {
                        (Some(resp), Some(rv)) => resp@ == crate::msg::rep_summary(rv),
                        (None, None) => true,
                        _ => false,
                    },
                    _ => false,
                },
                crate::msg::QueryMsg::GetEndorsements { user, skill } => match r {
                    crate::msg::QueryAnswer::Endorsements(v) => crate::msg::endorsement_views(v@)
                        == gathered_endorsements(
                        self.endorsements@,
                        ids_at(self.user_endorsements@, user@),
                        opt_view(skill),
                    ),
                    _ => false,
                },
                crate::msg::QueryMsg::GetUserNfts { user } => match r {
                    crate::msg::QueryAnswer::UserNfts(v) => crate::msg::nft_views(v@)
                        == gathered_nfts(self.nfts@, ids_at(self.user_nfts@, user@)),
                    _ => false,
                },
                crate::msg::QueryMsg::GetLeaderboard { platform, limit } => match r {
                    crate::msg::QueryAnswer::Leaderboard(v) => crate::msg::entry_views(v@)
                        == crate::board::leaderboard_view(*self, opt_view(platform), limit)
                        && v@.len() <= crate::board::spec_clamp_limit(limit),
                    _ => false,
                },
                crate::msg::QueryMsg::GetPlatformStats { platform } => match r {
                    crate::msg::QueryAnswer::PlatformStats(o) => match (
                        o,
                        stats_at(self.platform_stats@, platform@),
                    ) {
                        (Some(s), Some(sv)) => s@ == sv,
                        (None, None) => true,
                        _ => false,
                    },
                    _ => false,
                },
                crate::msg::QueryMsg::GetConfig {  } => match r {
                    crate::msg::QueryAnswer::Config(c) => c@ == self.config@,
                    _ => false,
                },
            },
    {
        match msg {
            crate::msg::QueryMsg::GetUserProofs { user, platform } => crate::msg::QueryAnswer::UserProofs(
                self.query_user_proofs(&user, platform),
            ),
            crate::msg::QueryMsg::GetProof { proof_id } => crate::msg::QueryAnswer::Proof(
                self.query_proof(&proof_id),
            ),
            crate::msg::QueryMsg::GetReputation { user } => crate::msg::QueryAnswer::Reputation(
                self.query_reputation(&user),
            ),
            crate::msg::QueryMsg::GetEndorsements { user, skill } => crate::msg::QueryAnswer::Endorsements(
                self.query_endorsements(&user, skill),
            ),
            crate::msg::QueryMsg::GetUserNfts { user } => crate::msg::QueryAnswer::UserNfts(
                self.query_user_nfts(&user),
            ),
            crate::msg::QueryMsg::GetLeaderboard { platform, limit } => crate::msg::QueryAnswer::Leaderboard(
                self.query_leaderboard(platform, limit),
            ),
            crate::msg::QueryMsg::GetPlatformStats { platform } => crate::msg::QueryAnswer::PlatformStats(
                self.query_platform_stats(&platform),
            ),
            crate::msg::QueryMsg::GetConfig {  } => crate::msg::QueryAnswer::Config(
                self.query_config(),
            ),
        }
    }
}

} // verus!
