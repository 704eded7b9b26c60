//! The leaderboard query: take the first `limit` members in first-seen
//! order, keep those with a reputation record, sort them by score
//! descending — stably, so ties keep membership order — and re-assign
//! ranks 1..=N. Truncation happens before the sort, so the answer is the
//! correct ordering of the members captured, not the true top-N of all
//! members.

use vstd::prelude::*;

use crate::msg::{entry_views, lemma_entry_views_push, EntryView, LeaderboardEntry};
use crate::state::{ids_at, rep_at, views_of, RepView, State, UserReputation};

verus! {

/// The number of leaderboard entries a query may return: the requested
/// limit, 100 when none is given, and never more than 1000.
pub open spec fn spec_clamp_limit(limit: Option<u32>) -> u32 {
    let n = match limit {
        Some(l) => l,
        None => 100u32,
    };
    if n > 1000 {
        1000u32
    } else {
        n
    }
}

/// Clamps a requested limit.
pub fn clamp_limit(limit: Option<u32>) -> (n: u32)
    ensures
        n == spec_clamp_limit(limit),
{
    let n = match limit {
        Some(l) => l,
        None => 100,
    };
    if n > 1000 {
        1000
    } else {
        n
    }
}

/// The first `limit` members, in first-seen order.
pub open spec fn take_limit(members: Seq<Seq<char>>, limit: int) -> Seq<Seq<char>> {
    if members.len() <= limit {
        members
    } else {
        members.take(limit)
    }
}

/// The row a member's reputation yields: their score, a provisional
/// rank, and their first proved platform (or "Unknown" with none).
pub open spec fn entry_of(user: Seq<char>, rv: RepView, rank: int) -> EntryView {
    EntryView {
        user,
        score: rv.score,
        rank,
        primary_platform: if rv.platforms.len() == 0 {
            "Unknown"@
        } else {
            rv.platforms[0]
        },
        total_proofs: rv.total_proofs,
    }
}

/// The rows the members yield, in membership order, each carrying its
/// membership position as a provisional rank; a member without a
/// reputation record is skipped.
pub open spec fn gathered_entries(
    m: Map<Seq<char>, UserReputation>,
    members: Seq<Seq<char>>,
) -> Seq<EntryView>
    decreases members.len(),
{
    if members.len() == 0 {
        Seq::empty()
    } else {
        let rest = gathered_entries(m, members.drop_last());
        match rep_at(m, members.last()) {
            Some(rv) => rest.push(entry_of(members.last(), rv, members.len() as int)),
            None => rest,
        }
    }
}

/// Inserts a row into a score-descending list, after every row of equal
/// or greater score, so ties keep their earlier order.
pub open spec fn insert_desc(e: EntryView, s: Seq<EntryView>) -> Seq<EntryView>
    decreases s.len(),
{
    if s.len() == 0 {
        seq![e]
    } else if e.score > s[0].score {
        seq![e] + s
    } else {
        seq![s[0]] + insert_desc(e, s.drop_first())
    }
}

/// Stable sort by score, descending: rows of equal score keep the order
/// they arrived in.
pub open spec fn sort_desc(s: Seq<EntryView>) -> Seq<EntryView>
    decreases s.len(),
{
    if s.len() == 0 {
        Seq::empty()
    } else {
        insert_desc(s.last(), sort_desc(s.drop_last()))
    }
}

/// The ranks 1..=N reassigned after sorting.
pub open spec fn rerank(s: Seq<EntryView>) -> Seq<EntryView> {
    Seq::new(s.len(), |i: int| EntryView { rank: i + 1, ..s[i] })
}

/// The whole leaderboard answer: select the platform's membership list
/// (or the global one), truncate to the clamped limit, gather the rows,
/// sort them stably by score descending, and re-assign ranks.
pub open spec fn leaderboard_view(
    s: State,
    platform: Option<Seq<char>>,
    limit: Option<u32>,
) -> Seq<EntryView> {
    let members = match platform {
        Some(p) => ids_at(s.platform_boards@, p),
        None => views_of(s.global_board@),
    };
    rerank(
        sort_desc(
            gathered_entries(
                s.reputations@,
                take_limit(members, spec_clamp_limit(limit) as int),
            ),
        ),
    )
}

/// Inserting one row grows a list by one.
pub proof fn lemma_insert_desc_len(e: EntryView, s: Seq<EntryView>)
    ensures
        insert_desc(e, s).len() == s.len() + 1,
    decreases s.len(),
{
    if s.len() > 0 && !(e.score > s[0].score) {
        lemma_insert_desc_len(e, s.drop_first());
    }
}

/// Sorting keeps the length.
pub proof fn lemma_sort_desc_len(s: Seq<EntryView>)
    ensures
        sort_desc(s).len() == s.len(),
    decreases s.len(),
{
    if s.len() > 0 {
        lemma_sort_desc_len(s.drop_last());
        lemma_insert_desc_len(s.last(), sort_desc(s.drop_last()));
    }
}

/// Gathering yields at most one row per member.
pub proof fn lemma_gathered_len(m: Map<Seq<char>, UserReputation>, members: Seq<Seq<char>>)
    ensures
        gathered_entries(m, members).len() <= members.len(),
    decreases members.len(),
{
    if members.len() > 0 {
        lemma_gathered_len(m, members.drop_last());
    }
}

/// Where the position scan stops is where `insert_desc` places the row.
pub(crate) proof fn lemma_insert_desc_at(s: Seq<EntryView>, e: EntryView, j: int)
    requires
        0 <= j <= s.len(),
        forall|k: int| 0 <= k < j ==> !(e.score > s[k].score),
        j < s.len() ==> e.score > s[j].score,
    ensures
        insert_desc(e, s) == s.take(j) + seq![e] + s.skip(j),
    decreases j,
{
    if j == 0 {
        if s.len() == 0 {
            assert(insert_desc(e, s) =~= s.take(0) + seq![e] + s.skip(0));
        } else {
            assert(insert_desc(e, s) =~= s.take(0) + seq![e] + s.skip(0));
        }
    } else {
        let t = s.drop_first();
        assert(forall|k: int| 0 <= k < j - 1 ==> !(e.score > t[k].score)) by {
            assert(forall|k: int| 0 <= k < j - 1 ==> t[k] == s[k + 1]);
        }
        lemma_insert_desc_at(t, e, j - 1);
        assert(insert_desc(e, s) == seq![s[0]] + insert_desc(e, t));
        assert(seq![s[0]] + (t.take(j - 1) + seq![e] + t.skip(j - 1)) =~= s.take(j) + seq![e]
            + s.skip(j));
    }
}

/// Copies a leaderboard row; the views agree.
fn clone_entry(e: &LeaderboardEntry) -> (c: LeaderboardEntry)
    ensures
        c@ == e@,
{
    LeaderboardEntry {
        user: e.user.clone(),
        score: e.score,
        rank: e.rank,
        primary_platform: e.primary_platform.clone(),
        total_proofs: e.total_proofs,
    }
}

/// Inserts a row at the position `insert_desc` gives it: after every
/// row of equal or greater score.
fn insert_row(out: &mut Vec<LeaderboardEntry>, e: LeaderboardEntry)
    ensures
        entry_views(final(out)@) == insert_desc(e@, entry_views(old(out)@)),
{
    let ghost s0 = entry_views(old(out)@);
    let mut j: usize = 0;
    #[verifier::loop_isolation(false)]
    while j < out.len() && !(e.score > out[j].score)
        invariant
            j <= out@.len(),
            out@ == old(out)@,
            forall|k: int| 0 <= k < j ==> !(e.score as int > s0[k].score),
        decreases out@.len() - j,
    {
        j = j + 1;
    }
    let ghost ev = e@;
    out.insert(j, e);
    proof {
        assert(entry_views(out@) =~= s0.take(j as int) + seq![ev] + s0.skip(j as int));
        lemma_insert_desc_at(s0, ev, j as int);
    }
}

/// Sorts rows stably by score, descending.
fn sort_rows(v: &Vec<LeaderboardEntry>) -> (r: Vec<LeaderboardEntry>)
    ensures
        entry_views(r@) == sort_desc(entry_views(v@)),
{
    let ghost sv = entry_views(v@);
    let mut out: Vec<LeaderboardEntry> = Vec::new();
    let mut i: usize = 0;
    #[verifier::loop_isolation(false)]
    while i < v.len()
        invariant
            i <= v@.len(),
            entry_views(out@) == sort_desc(sv.take(i as int)),
        decreases v@.len() - i,
    {
        let e = clone_entry(&v[i]);
        proof {
            assert(e@ == sv[i as int]);
            assert(sv.take(i as int + 1).drop_last() =~= sv.take(i as int));
            assert(sv.take(i as int + 1).last() == sv[i as int]);
        }
        insert_row(&mut out, e);
        i = i + 1;
    }
    proof {
        assert(sv.take(i as int) =~= sv);
    }
    out
}

impl State {
    /// Builds the leaderboard: the first clamped-limit members of the
    /// chosen membership list, each with a reputation record, ordered
    /// by score descending (ties in first-seen order) and ranked 1..=N.
    pub fn query_leaderboard(&self, platform: Option<String>, limit: Option<u32>) -> (r: Vec<
        LeaderboardEntry,
    >)
        ensures
            entry_views(r@) == leaderboard_view(
                *self,
                crate::state::opt_view(platform),
                limit,
            ),
            r@.len() <= spec_clamp_limit(limit),
    {
        let lim_u32 = clamp_limit(limit);
        let lim = lim_u32 as usize;
        let empty: Vec<String> = Vec::new();
        let members: &Vec<String> = match &platform {
            Some(p) => match self.platform_boards.get(p) {
                Some(b) => b,
                None => &empty,
            },
            None => &self.global_board,
        };
        let ghost mv = match crate::state::opt_view(platform) {
            Some(pv) => ids_at(self.platform_boards@, pv),
            None => views_of(self.global_board@),
        };
        proof {
            assert(views_of(members@) =~= mv);
        }
        let ghost tm = take_limit(mv, spec_clamp_limit(limit) as int);
        let n = if members.len() < lim {
            members.len()
        } else {
            lim
        };
        proof {
            assert(tm =~= views_of(members@).take(n as int));
        }
        let mut entries: Vec<LeaderboardEntry> = Vec::new();
        let mut i: usize = 0;
        #[verifier::loop_isolation(false)]
        while i < n
            invariant
                i <= n,
                n <= members@.len(),
                n <= 1000,
                entry_views(entries@) == gathered_entries(self.reputations@, tm.take(i as int)),
            decreases n - i,
        {
            let user = &members[i];
            match self.reputations.get(user) {
                Some(rp) => {
                    let primary = if rp.platforms.len() == 0 {
                        String::from_str("Unknown")
                    } else {
                        rp.platforms[0].clone()
                    };
                    let e = LeaderboardEntry {
                        user: user.clone(),
                        score: rp.score,
                        rank: (i + 1) as u32,
                        primary_platform: primary,
                        total_proofs: rp.total_proofs,
                    };
                    let ghost prev = entries@;
                    proof {
                        assert(tm[i as int] == members@[i as int]@);
                        assert(e@ == entry_of(tm[i as int], rp@, i as int + 1));
                    }
                    entries.push(e);
                    proof {
                        lemma_entry_views_push(
                            prev,
                            entries@,
                            entry_of(tm[i as int], rp@, i as int + 1),
                        );
                    }
                },
                None => {},
            }
            proof {
                assert(tm.take(i as int + 1).drop_last() =~= tm.take(i as int));
                assert(tm.take(i as int + 1).last() == tm[i as int]);
            }
            i = i + 1;
        }
        proof {
            assert(tm.take(i as int) =~= tm);
            lemma_gathered_len(self.reputations@, tm);
        }
        let mut sorted = sort_rows(&entries);
        proof {
            lemma_sort_desc_len(entry_views(entries@));
        }
        let ghost sortedv = entry_views(sorted@);

        // Ranks are reassigned 1..=N after the sort.
        let mut k: usize = 0;
        #[verifier::loop_isolation(false)]
        while k < sorted.len()
            invariant
                k <= sorted@.len(),
                sorted@.len() == sortedv.len(),
                sortedv.len() <= 1000,
                forall|x: int| 0 <= x < k ==> #[trigger] sorted@[x]@ == rerank(sortedv)[x],
                forall|x: int| k <= x < sortedv.len() ==> #[trigger] sorted@[x]@ == sortedv[x],
            decreases sorted@.len() - k,
        {
            let mut e = clone_entry(&sorted[k]);
            e.rank = (k + 1) as u32;
            sorted.set(k, e);
            k = k + 1;
        }
        proof {
            assert(entry_views(sorted@) =~= rerank(sortedv));
        }
        sorted
    }
}

} // verus!
