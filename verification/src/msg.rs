//! The command and query surfaces as closed sum types, the response
//! records that queries assemble, and their mathematical views.

use vstd::prelude::*;

use crate::state::{
    Config, ConfigView, Endorsement, EndorsementView, NftView, ProofView, RepView, SkillNft,
    SkillProof, UserReputation, opt_view, views_of,
};

verus! {

/// Initialization input; with no admin given, the initializing caller
/// becomes admin.
pub struct InstantiateMsg {
    pub admin: Option<String>,
}

/// One mutating command.
pub enum ExecuteMsg {
    /// Record a verified skill proof.
    StoreProof {
        platform: String,
        username: String,
        skill_data: String,
        proof_hash: String,
        metadata: Option<String>,
    },
    /// Adjust a user's reputation score administratively.
    UpdateReputation { user: String, score_delta: i32, reason: String },
    /// Add a peer endorsement.
    AddEndorsement { endorsee: String, skill: String, message: String, weight: u32 },
    /// Mint or re-mint a skill badge.
    MintSkillNft { recipient: String, platform: String, skill_level: u32, token_uri: String },
    /// Replace the admin.
    UpdateAdmin { new_admin: String },
}

/// One read-only query.
pub enum QueryMsg {
    GetUserProofs { user: String, platform: Option<String> },
    GetProof { proof_id: String },
    GetReputation { user: String },
    GetEndorsements { user: String, skill: Option<String> },
    GetUserNfts { user: String },
    GetLeaderboard { platform: Option<String>, limit: Option<u32> },
    GetPlatformStats { platform: String },
    GetConfig {},
}

/// What an accepted command reports back.
pub enum ExecuteReply {
    ProofStored { proof_id: String, score_gained: u32 },
    ReputationUpdated {},
    EndorsementAdded { endorsement_id: String },
    NftMinted { token_id: String },
    AdminUpdated {},
}

/// One proof, as a query returns it.
pub struct ProofResponse {
    pub id: String,
    pub user: String,
    pub platform: String,
    pub username: String,
    pub skill_data: String,
    pub proof_hash: String,
    pub timestamp: u64,
    pub verified: bool,
    pub metadata: Option<String>,
}

impl View for ProofResponse {
    type V = ProofView;

    open spec fn view(&self) -> ProofView {
        ProofView {
            id: self.id@,
            user: self.user@,
            platform: self.platform@,
            username: self.username@,
            skill_data: self.skill_data@,
            proof_hash: self.proof_hash@,
            timestamp: self.timestamp as int,
            verified: self.verified,
            metadata: opt_view(self.metadata),
        }
    }
}

/// One reputation record, as a query returns it: the counters without
/// the platform set.
pub struct ReputationResponse {
    pub user: String,
    pub score: i32,
    pub total_proofs: u32,
    pub endorsements_received: u32,
    pub endorsements_given: u32,
    pub last_updated: u64,
}

pub struct RepSummary {
    pub user: Seq<char>,
    pub score: int,
    pub total_proofs: int,
    pub endorsements_received: int,
    pub endorsements_given: int,
    pub last_updated: int,
}

impl View for ReputationResponse {
    type V = RepSummary;

    open spec fn view(&self) -> RepSummary {
        RepSummary {
            user: self.user@,
            score: self.score as int,
            total_proofs: self.total_proofs as int,
            endorsements_received: self.endorsements_received as int,
            endorsements_given: self.endorsements_given as int,
            last_updated: self.last_updated as int,
        }
    }
}

/// The summary a reputation record reads as.
pub open spec fn rep_summary(r: RepView) -> RepSummary {
    RepSummary {
        user: r.user,
        score: r.score,
        total_proofs: r.total_proofs,
        endorsements_received: r.endorsements_received,
        endorsements_given: r.endorsements_given,
        last_updated: r.last_updated,
    }
}

/// One endorsement, as a query returns it.
pub struct EndorsementResponse {
    pub id: String,
    pub endorser: String,
    pub endorsee: String,
    pub skill: String,
    pub message: String,
    pub weight: u32,
    pub timestamp: u64,
}

impl View for EndorsementResponse {
    type V = EndorsementView;

    open spec fn view(&self) -> EndorsementView {
        EndorsementView {
            id: self.id@,
            endorser: self.endorser@,
            endorsee: self.endorsee@,
            skill: self.skill@,
            message: self.message@,
            weight: self.weight as int,
            timestamp: self.timestamp as int,
        }
    }
}

/// One badge, as a query returns it: without the proof count.
pub struct NftResponse {
    pub token_id: String,
    pub owner: String,
    pub platform: String,
    pub skill_level: u32,
    pub token_uri: String,
    pub created_at: u64,
    pub last_updated: u64,
}

pub struct NftSummary {
    pub token_id: Seq<char>,
    pub owner: Seq<char>,
    pub platform: Seq<char>,
    pub skill_level: int,
    pub token_uri: Seq<char>,
    pub created_at: int,
    pub last_updated: int,
}

impl View for NftResponse {
    type V = NftSummary;

    open spec fn view(&self) -> NftSummary {
        NftSummary {
            token_id: self.token_id@,
            owner: self.owner@,
            platform: self.platform@,
            skill_level: self.skill_level as int,
            token_uri: self.token_uri@,
            created_at: self.created_at as int,
            last_updated: self.last_updated as int,
        }
    }
}

/// The summary a badge record reads as.
pub open spec fn nft_summary(n: NftView) -> NftSummary {
    NftSummary {
        token_id: n.token_id,
        owner: n.owner,
        platform: n.platform,
        skill_level: n.skill_level,
        token_uri: n.token_uri,
        created_at: n.created_at,
        last_updated: n.last_updated,
    }
}

/// One ranked leaderboard row.
pub struct LeaderboardEntry {
    pub user: String,
    pub score: i32,
    pub rank: u32,
    pub primary_platform: String,
    pub total_proofs: u32,
}

pub struct EntryView {
    pub user: Seq<char>,
    pub score: int,
    pub rank: int,
    pub primary_platform: Seq<char>,
    pub total_proofs: int,
}

impl View for LeaderboardEntry {
    type V = EntryView;

    open spec fn view(&self) -> EntryView {
        EntryView {
            user: self.user@,
            score: self.score as int,
            rank: self.rank as int,
            primary_platform: self.primary_platform@,
            total_proofs: self.total_proofs as int,
        }
    }
}

/// The configuration, as a query returns it.
pub struct ConfigResponse {
    pub admin: String,
    pub total_proofs: u32,
    pub total_users: u32,
    pub supported_platforms: Vec<String>,
}

impl View for ConfigResponse {
    type V = ConfigView;

    open spec fn view(&self) -> ConfigView {
        ConfigView {
            admin: self.admin@,
            total_proofs: self.total_proofs as int,
            total_users: self.total_users as int,
            supported_platforms: views_of(self.supported_platforms@),
        }
    }
}

/// The answer to one query, one variant per query kind. A lookup by id
/// answers `None` when nothing is stored under the id.
pub enum QueryAnswer {
    UserProofs(Vec<ProofResponse>),
    Proof(Option<ProofResponse>),
    Reputation(Option<ReputationResponse>),
    Endorsements(Vec<EndorsementResponse>),
    UserNfts(Vec<NftResponse>),
    Leaderboard(Vec<LeaderboardEntry>),
    PlatformStats(Option<crate::state::PlatformStats>),
    Config(ConfigResponse),
}

/// The views of a list of proof responses, in order.
pub open spec fn proof_views(l: Seq<ProofResponse>) -> Seq<ProofView> {
    Seq::new(l.len(), |i: int| l[i]@)
}

/// The views of a list of endorsement responses, in order.
pub open spec fn endorsement_views(l: Seq<EndorsementResponse>) -> Seq<EndorsementView> {
    Seq::new(l.len(), |i: int| l[i]@)
}

/// The views of a list of badge responses, in order.
pub open spec fn nft_views(l: Seq<NftResponse>) -> Seq<NftSummary> {
    Seq::new(l.len(), |i: int| l[i]@)
}

/// The views of a list of leaderboard rows, in order.
pub open spec fn entry_views(l: Seq<LeaderboardEntry>) -> Seq<EntryView> {
    Seq::new(l.len(), |i: int| l[i]@)
}

/// A list of proof responses, pushed, seen through views.
pub(crate) proof fn lemma_proof_views_push(
    v1: Seq<ProofResponse>,
    v2: Seq<ProofResponse>,
    pv: ProofView,
)
    requires
        v2.len() == v1.len() + 1,
        forall|i: int| 0 <= i < v1.len() ==> v2[i] == v1[i],
        v2[v1.len() as int]@ == pv,
    ensures
        proof_views(v2) == proof_views(v1).push(pv),
{
    assert(proof_views(v2) =~= proof_views(v1).push(pv));
}

/// A list of endorsement responses, pushed, seen through views.
pub(crate) proof fn lemma_endorsement_views_push(
    v1: Seq<EndorsementResponse>,
    v2: Seq<EndorsementResponse>,
    ev: EndorsementView,
)
    requires
        v2.len() == v1.len() + 1,
        forall|i: int| 0 <= i < v1.len() ==> v2[i] == v1[i],
        v2[v1.len() as int]@ == ev,
    ensures
        endorsement_views(v2) == endorsement_views(v1).push(ev),
{
    assert(endorsement_views(v2) =~= endorsement_views(v1).push(ev));
}

/// A list of badge responses, pushed, seen through views.
pub(crate) proof fn lemma_nft_views_push(
    v1: Seq<NftResponse>,
    v2: Seq<NftResponse>,
    nv: NftSummary,
)
    requires
        v2.len() == v1.len() + 1,
        forall|i: int| 0 <= i < v1.len() ==> v2[i] == v1[i],
        v2[v1.len() as int]@ == nv,
    ensures
        nft_views(v2) == nft_views(v1).push(nv),
{
    assert(nft_views(v2) =~= nft_views(v1).push(nv));
}

/// A list of leaderboard rows, pushed, seen through views.
pub(crate) proof fn lemma_entry_views_push(
    v1: Seq<LeaderboardEntry>,
    v2: Seq<LeaderboardEntry>,
    ev: EntryView,
)
    requires
        v2.len() == v1.len() + 1,
        forall|i: int| 0 <= i < v1.len() ==> v2[i] == v1[i],
        v2[v1.len() as int]@ == ev,
    ensures
        entry_views(v2) == entry_views(v1).push(ev),
{
    assert(entry_views(v2) =~= entry_views(v1).push(ev));
}

/// Copies a stored proof into a response; the views agree.
pub fn proof_response(p: &SkillProof) -> (r: ProofResponse)
    ensures
        r@ == p@,
{
    ProofResponse {
        id: p.id.clone(),
        user: p.user.clone(),
        platform: p.platform.clone(),
        username: p.username.clone(),
        skill_data: p.skill_data.clone(),
        proof_hash: p.proof_hash.clone(),
        timestamp: p.timestamp,
        verified: p.verified,
        metadata: crate::text::clone_opt_string(&p.metadata),
    }
}

/// Copies a stored reputation into a response; the views agree.
pub fn reputation_response(r: &UserReputation) -> (resp: ReputationResponse)
    ensures
        resp@ == rep_summary(r@),
{
    ReputationResponse {
        user: r.user.clone(),
        score: r.score,
        total_proofs: r.total_proofs,
        endorsements_received: r.endorsements_received,
        endorsements_given: r.endorsements_given,
        last_updated: r.last_updated,
    }
}

/// Copies a stored endorsement into a response; the views agree.
pub fn endorsement_response(e: &Endorsement) -> (r: EndorsementResponse)
    ensures
        r@ == e@,
{
    EndorsementResponse {
        id: e.id.clone(),
        endorser: e.endorser.clone(),
        endorsee: e.endorsee.clone(),
        skill: e.skill.clone(),
        message: e.message.clone(),
        weight: e.weight,
        timestamp: e.timestamp,
    }
}

/// Copies a stored badge into a response; the views agree.
pub fn nft_response(n: &SkillNft) -> (r: NftResponse)
    ensures
        r@ == nft_summary(n@),
{
    NftResponse {
        token_id: n.token_id.clone(),
        owner: n.owner.clone(),
        platform: n.platform.clone(),
        skill_level: n.skill_level,
        token_uri: n.token_uri.clone(),
        created_at: n.created_at,
        last_updated: n.last_updated,
    }
}

/// Copies the configuration into a response; the views agree.
pub fn config_response(c: &Config) -> (r: ConfigResponse)
    ensures
        r@ == c@,
{
    ConfigResponse {
        admin: c.admin.clone(),
        total_proofs: c.total_proofs,
        total_users: c.total_users,
        supported_platforms: crate::text::clone_string_vec(&c.supported_platforms),
    }
}

} // verus!
