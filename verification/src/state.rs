//! The persisted records, their mathematical views, and the pure
//! transition functions that the operations' contracts are stated over.

use vstd::prelude::*;

use crate::smap::StringMap;

verus! {

/// The singleton configuration record.
pub struct Config {
    pub admin: String,
    pub total_proofs: u32,
    pub total_users: u32,
    pub supported_platforms: Vec<String>,
}

/// One verified skill proof; created once, never mutated or deleted.
pub struct SkillProof {
    pub id: String,
    pub user: String,
    pub platform: String,
    pub username: String,
    pub skill_data: String,
    pub proof_hash: String,
    pub timestamp: u64,
    pub verified: bool,
    pub metadata: Option<String>,
}

/// One user's reputation accumulator.
pub struct UserReputation {
    pub user: String,
    pub score: i32,
    pub total_proofs: u32,
    pub endorsements_received: u32,
    pub endorsements_given: u32,
    pub last_updated: u64,
    pub platforms: Vec<String>,
}

/// One peer endorsement; created once, immutable thereafter.
pub struct Endorsement {
    pub id: String,
    pub endorser: String,
    pub endorsee: String,
    pub skill: String,
    pub message: String,
    pub weight: u32,
    pub timestamp: u64,
}

/// One skill badge; re-minting the same triple overwrites it in place.
pub struct SkillNft {
    pub token_id: String,
    pub owner: String,
    pub platform: String,
    pub skill_level: u32,
    pub token_uri: String,
    pub created_at: u64,
    pub last_updated: u64,
    pub proof_count: u32,
}

/// Per-platform counters. `average_score` is declared but no operation
/// recomputes it; it stays zero.
pub struct PlatformStats {
    pub platform: String,
    pub total_users: u32,
    pub total_proofs: u32,
    pub average_score: u64,
    pub top_users: Vec<String>,
}

/// The views of the strings of a list, in order.
pub open spec fn views_of(l: Seq<String>) -> Seq<Seq<char>> {
    Seq::new(l.len(), |i: int| l[i]@)
}

/// The view of an optional string.
pub open spec fn opt_view(m: Option<String>) -> Option<Seq<char>> {
    match m {
        Some(s) => Some(s@),
        None => None,
    }
}

pub struct ConfigView {
    pub admin: Seq<char>,
    pub total_proofs: int,
    pub total_users: int,
    pub supported_platforms: Seq<Seq<char>>,
}

impl View for Config {
    type V = ConfigView;

    open spec fn view(&self) -> ConfigView {
        ConfigView {
            admin: self.admin@,
            total_proofs: self.total_proofs as int,
            total_users: self.total_users as int,
            supported_platforms: views_of(self.supported_platforms@),
        }
    }
}

pub struct ProofView {
    pub id: Seq<char>,
    pub user: Seq<char>,
    pub platform: Seq<char>,
    pub username: Seq<char>,
    pub skill_data: Seq<char>,
    pub proof_hash: Seq<char>,
    pub timestamp: int,
    pub verified: bool,
    pub metadata: Option<Seq<char>>,
}

impl View for SkillProof {
    type V = ProofView;

    open spec fn view(&self) -> ProofView {
        ProofView {
            id: self.id@,
            user: self.user@,
            platform: self.platform@,
            username: self.username@,
            skill_data: self.skill_data@,
            proof_hash: self.proof_hash@,
            timestamp: self.timestamp as int,
            verified: self.verified,
            metadata: opt_view(self.metadata),
        }
    }
}

pub struct RepView {
    pub user: Seq<char>,
    pub score: int,
    pub total_proofs: int,
    pub endorsements_received: int,
    pub endorsements_given: int,
    pub last_updated: int,
    pub platforms: Seq<Seq<char>>,
}

impl View for UserReputation {
    type V = RepView;

    open spec fn view(&self) -> RepView {
        RepView {
            user: self.user@,
            score: self.score as int,
            total_proofs: self.total_proofs as int,
            endorsements_received: self.endorsements_received as int,
            endorsements_given: self.endorsements_given as int,
            last_updated: self.last_updated as int,
            platforms: views_of(self.platforms@),
        }
    }
}

pub struct EndorsementView {
    pub id: Seq<char>,
    pub endorser: Seq<char>,
    pub endorsee: Seq<char>,
    pub skill: Seq<char>,
    pub message: Seq<char>,
    pub weight: int,
    pub timestamp: int,
}

impl View for Endorsement {
    type V = EndorsementView;

    open spec fn view(&self) -> EndorsementView {
        EndorsementView {
            id: self.id@,
            endorser: self.endorser@,
            endorsee: self.endorsee@,
            skill: self.skill@,
            message: self.message@,
            weight: self.weight as int,
            timestamp: self.timestamp as int,
        }
    }
}

pub struct NftView {
    pub token_id: Seq<char>,
    pub owner: Seq<char>,
    pub platform: Seq<char>,
    pub skill_level: int,
    pub token_uri: Seq<char>,
    pub created_at: int,
    pub last_updated: int,
    pub proof_count: int,
}

impl View for SkillNft {
    type V = NftView;

    open spec fn view(&self) -> NftView {
        NftView {
            token_id: self.token_id@,
            owner: self.owner@,
            platform: self.platform@,
            skill_level: self.skill_level as int,
            token_uri: self.token_uri@,
            created_at: self.created_at as int,
            last_updated: self.last_updated as int,
            proof_count: self.proof_count as int,
        }
    }
}

pub struct StatsView {
    pub platform: Seq<char>,
    pub total_users: int,
    pub total_proofs: int,
    pub average_score: int,
    pub top_users: Seq<Seq<char>>,
}

impl View for PlatformStats {
    type V = StatsView;

    open spec fn view(&self) -> StatsView {
        StatsView {
            platform: self.platform@,
            total_users: self.total_users as int,
            total_proofs: self.total_proofs as int,
            average_score: self.average_score as int,
            top_users: views_of(self.top_users@),
        }
    }
}

/// The reputation stored under a user, if any, as its view.
pub open spec fn rep_at(m: Map<Seq<char>, UserReputation>, k: Seq<char>) -> Option<RepView> {
    if m.contains_key(k) {
        Some(m[k]@)
    } else {
        None
    }
}

/// The proof stored under an id, if any, as its view.
pub open spec fn proof_at(m: Map<Seq<char>, SkillProof>, k: Seq<char>) -> Option<ProofView> {
    if m.contains_key(k) {
        Some(m[k]@)
    } else {
        None
    }
}

/// The endorsement stored under an id, if any, as its view.
pub open spec fn endorsement_at(m: Map<Seq<char>, Endorsement>, k: Seq<char>) -> Option<
    EndorsementView,
> {
    if m.contains_key(k) {
        Some(m[k]@)
    } else {
        None
    }
}

/// The badge stored under a token id, if any, as its view.
pub open spec fn nft_at(m: Map<Seq<char>, SkillNft>, k: Seq<char>) -> Option<NftView> {
    if m.contains_key(k) {
        Some(m[k]@)
    } else {
        None
    }
}

/// The stats stored under a platform, if any, as its view.
pub open spec fn stats_at(m: Map<Seq<char>, PlatformStats>, k: Seq<char>) -> Option<StatsView> {
    if m.contains_key(k) {
        Some(m[k]@)
    } else {
        None
    }
}

/// The id list stored under a key; a missing key reads as the empty list.
pub open spec fn ids_at(m: Map<Seq<char>, Vec<String>>, k: Seq<char>) -> Seq<Seq<char>> {
    if m.contains_key(k) {
        views_of(m[k]@)
    } else {
        Seq::empty()
    }
}

/// The store now holds `v` under `k` and is otherwise unchanged.
pub open spec fn updated_at<V: View>(
    m0: Map<Seq<char>, V>,
    m1: Map<Seq<char>, V>,
    k: Seq<char>,
    v: V::V,
) -> bool {
    &&& m1.dom() == m0.dom().insert(k)
    &&& m1.contains_key(k)
    &&& m1[k]@ == v
    &&& forall|x: Seq<char>| x != k && m0.contains_key(x) ==> m1.contains_key(x) && m1[x] == m0[x]
}

/// The id list under `k` grew by `id` at its end; every other list is
/// unchanged.
pub open spec fn appended_at(
    m0: Map<Seq<char>, Vec<String>>,
    m1: Map<Seq<char>, Vec<String>>,
    k: Seq<char>,
    id: Seq<char>,
) -> bool {
    &&& m1.dom() == m0.dom().insert(k)
    &&& m1.contains_key(k)
    &&& ids_at(m1, k) == ids_at(m0, k).push(id)
    &&& forall|x: Seq<char>| x != k && m0.contains_key(x) ==> m1.contains_key(x) && m1[x] == m0[x]
}

/// A reputation record as first created: every counter at zero and no
/// platform proved on yet.
pub open spec fn new_rep(user: Seq<char>, time: int) -> RepView {
    RepView {
        user,
        score: 0,
        total_proofs: 0,
        endorsements_received: 0,
        endorsements_given: 0,
        last_updated: time,
        platforms: Seq::empty(),
    }
}

/// The stored reputation, or a fresh one for a user who has none yet.
pub open spec fn rep_or_new(r: Option<RepView>, user: Seq<char>, time: int) -> RepView {
    match r {
        Some(rep) => rep,
        None => new_rep(user, time),
    }
}

/// The reputation after one accepted proof: +10 base, and +25 with the
/// platform added to the set when it is new to the user.
pub open spec fn rep_after_proof(r: RepView, platform: Seq<char>, time: int) -> RepView {
    RepView {
        user: r.user,
        score: if r.platforms.contains(platform) {
            r.score + 10
        } else {
            r.score + 35
        },
        total_proofs: r.total_proofs + 1,
        endorsements_received: r.endorsements_received,
        endorsements_given: r.endorsements_given,
        last_updated: time,
        platforms: if r.platforms.contains(platform) {
            r.platforms
        } else {
            r.platforms.push(platform)
        },
    }
}

/// The endorsee's reputation after receiving an endorsement: +weight.
pub open spec fn rep_after_received(r: RepView, weight: int, time: int) -> RepView {
    RepView {
        user: r.user,
        score: r.score + weight,
        total_proofs: r.total_proofs,
        endorsements_received: r.endorsements_received + 1,
        endorsements_given: r.endorsements_given,
        last_updated: time,
        platforms: r.platforms,
    }
}

/// The endorser's reputation after giving an endorsement: a flat +5.
pub open spec fn rep_after_given(r: RepView, time: int) -> RepView {
    RepView {
        user: r.user,
        score: r.score + 5,
        total_proofs: r.total_proofs,
        endorsements_received: r.endorsements_received,
        endorsements_given: r.endorsements_given + 1,
        last_updated: time,
        platforms: r.platforms,
    }
}

/// The reputation after an administrative adjustment: the delta alone.
pub open spec fn rep_after_adjust(r: RepView, delta: int, time: int) -> RepView {
    RepView {
        user: r.user,
        score: r.score + delta,
        total_proofs: r.total_proofs,
        endorsements_received: r.endorsements_received,
        endorsements_given: r.endorsements_given,
        last_updated: time,
        platforms: r.platforms,
    }
}

/// Platform stats as first created.
pub open spec fn new_stats(platform: Seq<char>) -> StatsView {
    StatsView { platform, total_users: 0, total_proofs: 0, average_score: 0, top_users: Seq::empty() }
}

/// The stored stats, or fresh ones for a platform with no proof yet.
pub open spec fn stats_or_new(s: Option<StatsView>, platform: Seq<char>) -> StatsView {
    match s {
        Some(st) => st,
        None => new_stats(platform),
    }
}

/// The stats after one accepted proof: one more proof, and a first-time
/// submitter joins `top_users` and counts as a new user.
pub open spec fn stats_after_proof(s: StatsView, user: Seq<char>) -> StatsView {
    StatsView {
        platform: s.platform,
        total_users: if s.top_users.contains(user) {
            s.total_users
        } else {
            s.total_users + 1
        },
        total_proofs: s.total_proofs + 1,
        average_score: s.average_score,
        top_users: if s.top_users.contains(user) {
            s.top_users
        } else {
            s.top_users.push(user)
        },
    }
}

/// Every record store of the engine, one value; a mutating operation
/// changes it atomically or, on any validation failure, not at all.
pub struct State {
    pub config: Config,
    pub proofs: StringMap<SkillProof>,
    pub reputations: StringMap<UserReputation>,
    pub endorsements: StringMap<Endorsement>,
    pub nfts: StringMap<SkillNft>,
    pub platform_stats: StringMap<PlatformStats>,
    pub user_proofs: StringMap<Vec<String>>,
    pub user_endorsements: StringMap<Vec<String>>,
    pub user_nfts: StringMap<Vec<String>>,
    pub platform_boards: StringMap<Vec<String>>,
    pub global_board: Vec<String>,
}

/// A list of strings, pushed, seen through views.
pub(crate) proof fn lemma_views_push(v1: Seq<String>, v2: Seq<String>, sv: Seq<char>)
    requires
        v2.len() == v1.len() + 1,
        forall|i: int| 0 <= i < v1.len() ==> v2[i] == v1[i],
        v2[v1.len() as int]@ == sv,
    ensures
        views_of(v2) == views_of(v1).push(sv),
{
    assert(views_of(v2) =~= views_of(v1).push(sv));
}

/// Membership among the strings of a list matches membership among
/// their views.
pub(crate) proof fn lemma_contains_views(l: Seq<String>, s: Seq<char>)
    ensures
        crate::text::contains_text(l, s) == views_of(l).contains(s),
{
    if crate::text::contains_text(l, s) {
        let i = choose|i: int| 0 <= i < l.len() && l[i]@ == s;
        assert(views_of(l)[i] == s);
    }
    if views_of(l).contains(s) {
        let i = choose|i: int| 0 <= i < views_of(l).len() && views_of(l)[i] == s;
        assert(l[i]@ == s);
    }
}

/// Copies a reputation record; the copy has the same view.
pub fn clone_reputation(r: &UserReputation) -> (c: UserReputation)
    ensures
        c@ == r@,
{
    UserReputation {
        user: r.user.clone(),
        score: r.score,
        total_proofs: r.total_proofs,
        endorsements_received: r.endorsements_received,
        endorsements_given: r.endorsements_given,
        last_updated: r.last_updated,
        platforms: crate::text::clone_string_vec(&r.platforms),
    }
}

/// Copies a platform stats record; the copy has the same view.
pub fn clone_stats(s: &PlatformStats) -> (c: PlatformStats)
    ensures
        c@ == s@,
{
    PlatformStats {
        platform: s.platform.clone(),
        total_users: s.total_users,
        total_proofs: s.total_proofs,
        average_score: s.average_score,
        top_users: crate::text::clone_string_vec(&s.top_users),
    }
}

} // verus!
