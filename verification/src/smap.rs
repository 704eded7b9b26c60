//! A map from strings to values, kept as an association list with
//! distinct keys. Its abstraction is the finite `Map` from each key's
//! character sequence to the stored value; every store in the engine is
//! one of these, so every persisted record is reasoned about through it.

use vstd::prelude::*;

verus! {

/// The map an association list denotes: later entries shadow earlier
/// ones (the representation keeps keys distinct, so nothing shadows).
pub open spec fn assoc_map<V>(s: Seq<(String, V)>) -> Map<Seq<char>, V>
    decreases s.len(),
{
    if s.len() == 0 {
        Map::empty()
    } else {
        assoc_map(s.drop_last()).insert(s.last().0@, s.last().1)
    }
}

/// No two entries carry the same key.
pub open spec fn distinct_keys<V>(s: Seq<(String, V)>) -> bool {
    forall|i: int, j: int| 0 <= i < j < s.len() ==> s[i].0@ != s[j].0@
}

proof fn lemma_assoc_map_at<V>(s: Seq<(String, V)>, i: int)
    requires
        distinct_keys(s),
        0 <= i < s.len(),
    ensures
        assoc_map(s).contains_key(s[i].0@),
        assoc_map(s)[s[i].0@] == s[i].1,
    decreases s.len(),
{
    if i < s.len() - 1 {
        assert(s.drop_last()[i] == s[i]);
        lemma_assoc_map_at(s.drop_last(), i);
        assert(s[i].0@ != s.last().0@);
    }
}

proof fn lemma_assoc_map_absent<V>(s: Seq<(String, V)>, k: Seq<char>)
    requires
        forall|i: int| 0 <= i < s.len() ==> s[i].0@ != k,
    ensures
        !assoc_map(s).contains_key(k),
    decreases s.len(),
{
    if s.len() > 0 {
        lemma_assoc_map_absent(s.drop_last(), k);
    }
}

proof fn lemma_assoc_map_push<V>(s: Seq<(String, V)>, p: (String, V))
    ensures
        assoc_map(s.push(p)) == assoc_map(s).insert(p.0@, p.1),
{
    assert(s.push(p).drop_last() =~= s);
    assert(s.push(p).last() == p);
}

proof fn lemma_assoc_map_update<V>(s: Seq<(String, V)>, i: int, p: (String, V))
    requires
        distinct_keys(s),
        0 <= i < s.len(),
        p.0@ == s[i].0@,
    ensures
        assoc_map(s.update(i, p)) == assoc_map(s).insert(p.0@, p.1),
    decreases s.len(),
{
    let t = s.update(i, p);
    if i == s.len() - 1 {
        assert(t.drop_last() =~= s.drop_last());
        assert(t.last() == p);
        assert(assoc_map(s.drop_last()).insert(p.0@, p.1) =~= assoc_map(s.drop_last()).insert(
            s.last().0@,
            s.last().1,
        ).insert(p.0@, p.1));
    } else {
        assert(t.drop_last() =~= s.drop_last().update(i, p));
        assert(t.last() == s.last());
        lemma_assoc_map_update(s.drop_last(), i, p);
        assert(p.0@ != s.last().0@);
        assert(assoc_map(s.drop_last()).insert(p.0@, p.1).insert(s.last().0@, s.last().1)
            =~= assoc_map(s.drop_last()).insert(s.last().0@, s.last().1).insert(p.0@, p.1));
    }
}

/// A string-keyed store whose contents are the finite map `self@`.
pub struct StringMap<V> {
    pairs: Vec<(String, V)>,
}

impl<V> View for StringMap<V> {
    type V = Map<Seq<char>, V>;

    closed spec fn view(&self) -> Map<Seq<char>, V> {
        assoc_map(self.pairs@)
    }
}

impl<V> StringMap<V> {
    #[verifier::type_invariant]
    spec fn inv(self) -> bool {
        distinct_keys(self.pairs@)
    }

    /// The empty store.
    pub fn new() -> (m: Self)
        ensures
            m@ == Map::<Seq<char>, V>::empty(),
    {
        StringMap { pairs: Vec::new() }
    }

    /// Looks a key up.
    pub fn get<'a>(&'a self, k: &String) -> (r: Option<&'a V>)
        ensures
            match r {
                Some(v) => self@.contains_key(k@) && *v == self@[k@],
                None => !self@.contains_key(k@),
            },
    {
        proof {
            use_type_invariant(&*self);
        }
        let mut i: usize = 0;
        while i < self.pairs.len()
            invariant
                i <= self.pairs@.len(),
                forall|j: int| 0 <= j < i ==> self.pairs@[j].0@ != k@,
                distinct_keys(self.pairs@),
                self@ == assoc_map(self.pairs@),
            decreases self.pairs@.len() - i,
        {
            if self.pairs[i].0.eq(k) {
                proof {
                    lemma_assoc_map_at(self.pairs@, i as int);
                }
                return Some(&self.pairs[i].1);
            }
            i = i + 1;
        }
        proof {
            lemma_assoc_map_absent(self.pairs@, k@);
        }
        None
    }

    /// Whether a key is present.
    pub fn contains_key(&self, k: &String) -> (r: bool)
        ensures
            r == self@.contains_key(k@),
    {
        match self.get(k) {
            Some(_) => true,
            None => false,
        }
    }

    /// The stored pairs: they denote exactly this map, and no key
    /// repeats.
    pub fn entries(&self) -> (r: &Vec<(String, V)>)
        ensures
            assoc_map(r@) == self@,
            distinct_keys(r@),
    {
        proof {
            use_type_invariant(&*self);
        }
        &self.pairs
    }

    /// Stores a value under a key, replacing what the key held before.
    pub fn insert(&mut self, k: String, v: V)
        ensures
            final(self)@ == old(self)@.insert(k@, v),
    {
        proof {
            use_type_invariant(&*self);
        }
        let ghost m0 = self@;
        let mut pairs: Vec<(String, V)> = Vec::new();
        std::mem::swap(&mut pairs, &mut self.pairs);
        let mut i: usize = 0;
        #[verifier::loop_isolation(false)]
        while i < pairs.len()
            invariant
                i <= pairs@.len(),
                forall|j: int| 0 <= j < i ==> pairs@[j].0@ != k@,
                distinct_keys(pairs@),
                m0 == assoc_map(pairs@),
            decreases pairs@.len() - i,
        {
            if pairs[i].0.eq(&k) {
                proof {
                    lemma_assoc_map_update(pairs@, i as int, (k, v));
                    assert(forall|i2: int, j2: int|
                        0 <= i2 < j2 < pairs@.update(i as int, (k, v)).len() ==> pairs@.update(
                            i as int,
                            (k, v),
                        )[i2].0@ != pairs@.update(i as int, (k, v))[j2].0@);
                }
                pairs.set(i, (k, v));
                self.pairs = pairs;
                return;
            }
            i = i + 1;
        }
        proof {
            lemma_assoc_map_absent(pairs@, k@);
            lemma_assoc_map_push(pairs@, (k, v));
            assert(distinct_keys(pairs@.push((k, v))));
        }
        pairs.push((k, v));
        self.pairs = pairs;
    }
}

} // verus!
