//! A map from header names to values, kept in insertion order.
use vstd::prelude::*;

use crate::text::text_eq;

verus! {

/// The pairs of a sequence as a map, later pairs winning.
pub open spec fn pairs_map(s: Seq<(Seq<char>, Seq<char>)>) -> Map<Seq<char>, Seq<char>>
    decreases s.len(),
{
    if s.len() == 0 {
        Map::empty()
    } else {
        pairs_map(s.drop_last()).insert(s.last().0, s.last().1)
    }
}

/// No two pairs share a key.
pub open spec fn distinct_keys(s: Seq<(Seq<char>, Seq<char>)>) -> bool {
    forall|i: int, j: int| 0 <= i < s.len() && 0 <= j < s.len() && i != j ==> s[i].0 != s[j].0
}

/// With distinct keys, the map holds exactly the pairs.
pub proof fn lemma_pairs_map(s: Seq<(Seq<char>, Seq<char>)>)
    requires
        distinct_keys(s),
    ensures
        forall|i: int| 0 <= i < s.len() ==> #[trigger] pairs_map(s).contains_key(s[i].0)
            && pairs_map(s)[s[i].0] == s[i].1,
        forall|k: Seq<char>| #[trigger] pairs_map(s).contains_key(k) ==> exists|i: int| 0 <= i < s.len() && s[i].0 == k,
        pairs_map(s).dom().finite(),
        pairs_map(s).dom().len() == s.len(),
    decreases s.len(),
{
    if s.len() > 0 {
        let p = s.drop_last();
        assert(distinct_keys(p));
        lemma_pairs_map(p);
        assert(!pairs_map(p).contains_key(s.last().0)) by {
            if pairs_map(p).contains_key(s.last().0) {
                let i = choose|i: int| 0 <= i < p.len() && p[i].0 == s.last().0;
                assert(s[i].0 == s[s.len() - 1].0);
            }
        }
        assert forall|k: Seq<char>| #[trigger] pairs_map(s).contains_key(k) implies exists|i: int| 0 <= i < s.len() && s[i].0 == k by {
            if k != s.last().0 {
                let i = choose|i: int| 0 <= i < p.len() && p[i].0 == k;
                assert(s[i].0 == k);
            } else {
                assert(s[s.len() - 1].0 == k);
            }
        }
        assert forall|i: int| 0 <= i < s.len() implies #[trigger] pairs_map(s).contains_key(s[i].0)
            && pairs_map(s)[s[i].0] == s[i].1 by {
            if i < s.len() - 1 {
                assert(p[i] == s[i]);
            }
        }
    }
}

/// Header names mapped to values, each name once, in the order first set.
pub struct Headers {
    entries: Vec<(String, String)>,
}

impl Headers {
    #[verifier::type_invariant]
    spec fn keys_distinct(self) -> bool {
        distinct_keys(self.pairs())
    }

    /// The pairs, in the order their names were first set.
    pub closed spec fn pairs(&self) -> Seq<(Seq<char>, Seq<char>)> {
        self.entries@.map_values(|p: (String, String)| (p.0@, p.1@))
    }

    /// The headers as a map from name to value.
    pub closed spec fn view(&self) -> Map<Seq<char>, Seq<char>> {
        pairs_map(self.pairs())
    }

    /// No headers.
    pub fn new() -> (h: Self)
        ensures
            h.pairs() == Seq::<(Seq<char>, Seq<char>)>::empty(),
            h.view() == Map::<Seq<char>, Seq<char>>::empty(),
    {
        let h = Headers { entries: Vec::new() };
        assert(h.pairs() =~= Seq::<(Seq<char>, Seq<char>)>::empty());
        h
    }

    fn position(&self, name: &str) -> (r: Option<usize>)
        ensures
            match r {
                Some(i) => i < self.pairs().len() && self.pairs()[i as int].0 == name@,
                None => forall|i: int| 0 <= i < self.pairs().len() ==> self.pairs()[i].0 != name@,
            },
    {
        let n = self.entries.len();
        let mut i: usize = 0;
        while i < n
            invariant
                n == self.entries@.len(),
                i <= n,
                forall|k: int| 0 <= k < i ==> self.pairs()[k].0 != name@,
            decreases n - i,
        {
            if text_eq(self.entries[i].0.as_str(), name) {
                return Some(i);
            }
            i = i + 1;
        }
        None
    }

    /// Sets header `name` to `value`, replacing an earlier value.
    pub fn insert(&mut self, name: String, value: String)
        ensures
            final(self).view() == old(self).view().insert(name@, value@),
    {
        proof {
            use_type_invariant(&*self);
            lemma_pairs_map(self.pairs());
        }
        let ghost kv = (name@, value@);
        let ghost old_pairs = self.pairs();
        let pos = self.position(name.as_str());
        let mut entries: Vec<(String, String)> = Vec::new();
        std::mem::swap(&mut entries, &mut self.entries);
        match pos {
            Some(i) => {
                entries.set(i, (name, value));
                proof {
                    let np = entries@.map_values(|p: (String, String)| (p.0@, p.1@));
                    assert(np =~= old_pairs.update(i as int, kv));
                    assert(distinct_keys(np));
                }
                self.entries = entries;
                proof {
                    assert(self.pairs() =~= old_pairs.update(i as int, kv));
                    lemma_pairs_map(self.pairs());
                    assert(self.view() =~= old(self).view().insert(kv.0, kv.1)) by {
                        assert forall|k: Seq<char>| #[trigger] self.view().contains_key(k)
                            <==> old(self).view().insert(kv.0, kv.1).contains_key(k) by {
                            if k == kv.0 {
                                assert(self.pairs()[i as int].0 == k);
                            }
                            if self.view().contains_key(k) {
                                let j = choose|j: int| 0 <= j < self.pairs().len() && self.pairs()[j].0 == k;
                                if j != i {
                                    assert(old_pairs[j].0 == k);
                                }
                            }
                            if old(self).view().contains_key(k) && k != kv.0 {
                                let j = choose|j: int| 0 <= j < old_pairs.len() && old_pairs[j].0 == k;
                                assert(self.pairs()[j].0 == k);
                            }
                        }
                        assert forall|k: Seq<char>| #[trigger] self.view().contains_key(k)
                            implies self.view()[k] == old(self).view().insert(kv.0, kv.1)[k] by {
                            let j = choose|j: int| 0 <= j < self.pairs().len() && self.pairs()[j].0 == k;
                            if j != i {
                                assert(old_pairs[j] == self.pairs()[j]);
                            }
                        }
                    }
                }
            },
            None => {
                entries.push((name, value));
                proof {
                    let np = entries@.map_values(|p: (String, String)| (p.0@, p.1@));
                    assert(np =~= old_pairs.push(kv));
                    assert(distinct_keys(np));
                }
                self.entries = entries;
                proof {
                    assert(self.pairs() =~= old_pairs.push(kv));
                    assert(self.pairs().drop_last() =~= old_pairs);
                }
            },
        }
    }

    /// The value of header `name`, if set.
    pub fn get(&self, name: &str) -> (r: Option<&String>)
        ensures
            match r {
                Some(v) => self.view().contains_key(name@) && self.view()[name@] == v@,
                None => !self.view().contains_key(name@),
            },
    {
        proof {
            use_type_invariant(self);
            lemma_pairs_map(self.pairs());
        }
        match self.position(name) {
            Some(i) => {
                assert(self.pairs()[i as int] == (self.entries@[i as int].0@, self.entries@[i as int].1@));
                assert(pairs_map(self.pairs()).contains_key(self.pairs()[i as int].0));
                Some(&self.entries[i].1)
            },
            None => {
                proof {
                    if self.view().contains_key(name@) {
                        let j = choose|j: int| 0 <= j < self.pairs().len() && self.pairs()[j].0 == name@;
                    }
                }
                None
            },
        }
    }

    /// The number of headers set.
    pub fn len(&self) -> (n: usize)
        ensures
            n == self.view().dom().len(),
    {
        proof {
            use_type_invariant(self);
            lemma_pairs_map(self.pairs());
        }
        self.entries.len()
    }

    /// Copies of the `(name, value)` pairs, in the order their names were
    /// first set.
    pub fn to_pairs(&self) -> (r: Vec<(String, String)>)
        ensures
            r@.map_values(|p: (String, String)| (p.0@, p.1@)) == self.pairs(),
            distinct_keys(self.pairs()),
            pairs_map(self.pairs()) == self.view(),
    {
        proof { use_type_invariant(self); }
        let mut r: Vec<(String, String)> = Vec::new();
        let n = self.entries.len();
        let mut i: usize = 0;
        while i < n
            invariant
                n == self.entries@.len(),
                i <= n,
                r@.len() == i,
                forall|k: int| 0 <= k < i ==> (#[trigger] r@[k]).0@ == self.entries@[k].0@ && r@[k].1@ == self.entries@[k].1@,
            decreases n - i,
        {
            let (k, v) = &self.entries[i];
            r.push((k.clone(), v.clone()));
            i = i + 1;
        }
        assert(r@.map_values(|p: (String, String)| (p.0@, p.1@)) =~= self.pairs());
        r
    }
}

/// A header set to a value is read back as that value, and setting it leaves
/// the other headers as they were.
pub proof fn lemma_insert_then_get(before: Map<Seq<char>, Seq<char>>, name: Seq<char>, value: Seq<char>, other: Seq<char>)
    ensures
        before.insert(name, value)[name] == value,
        other != name ==> before.insert(name, value).contains_key(other) == before.contains_key(other),
        other != name && before.contains_key(other) ==> before.insert(name, value)[other] == before[other],
{
}

} // verus!
