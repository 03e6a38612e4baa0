//! Environment variables: a map from names to values.
use vstd::prelude::*;

verus! {

/// The map that a list of `(name, value)` pairs describes when a later
/// pair for a name overrides an earlier one.
pub open spec fn pairs_view(s: Seq<(String, String)>) -> Map<Seq<char>, Seq<char>>
    decreases s.len(),
{
    if s.len() == 0 {
        Map::empty()
    } else {
        pairs_view(s.drop_last()).insert(s.last().0@, s.last().1@)
    }
}

/// A set of environment variables, each name bound to one value.
pub struct EnvVars {
    entries: Vec<(String, String)>,
}

impl View for EnvVars {
    type V = Map<Seq<char>, Seq<char>>;

    closed spec fn view(&self) -> Map<Seq<char>, Seq<char>> {
        pairs_view(self.entries@)
    }
}

impl EnvVars {
    /// No variables.
    pub fn new() -> (r: EnvVars)
        ensures
            r@ == Map::<Seq<char>, Seq<char>>::empty(),
    {
        EnvVars { entries: Vec::new() }
    }

    /// Binds `name` to `value`, replacing an earlier binding of `name`.
    pub fn insert(&mut self, name: String, value: String)
        ensures
            final(self)@ == old(self)@.insert(name@, value@),
    {
        let ghost s = self.entries@;
        let mut kept: Vec<(String, String)> = Vec::new();
        let n = self.entries.len();
        for i in 0..n
            invariant
                n == self.entries@.len(),
                s == self.entries@,
                pairs_view(kept@) == pairs_view(s.take(i as int)).remove(name@),
        {
            assert(s.take(i + 1).drop_last() =~= s.take(i as int));
            assert(s.take(i + 1).last() == s[i as int]);
            let e = &self.entries[i];
            if e.0 == name {
                assert(pairs_view(kept@) =~= pairs_view(s.take(i + 1)).remove(name@));
            } else {
                let ghost before = kept@;
                kept.push((e.0.clone(), e.1.clone()));
                assert(kept@.drop_last() =~= before);
                assert(pairs_view(kept@) =~= pairs_view(s.take(i + 1)).remove(name@));
            }
        }
        assert(s.take(n as int) =~= s);
        let ghost before = kept@;
        kept.push((name, value));
        assert(kept@.drop_last() =~= before);
        assert(pairs_view(kept@) =~= pairs_view(s).insert(name@, value@));
        self.entries = kept;
    }

    /// Adds every binding of `other`; where both bind a name, `other`'s value wins.
    pub fn extend(&mut self, other: EnvVars)
        ensures
            final(self)@ == old(self)@.union_prefer_right(other@),
    {
        let ghost base = self@;
        let ghost t = other.entries@;
        let n = other.entries.len();
        for i in 0..n
            invariant
                n == other.entries@.len(),
                t == other.entries@,
                self@ == base.union_prefer_right(pairs_view(t.take(i as int))),
        {
            assert(t.take(i + 1).drop_last() =~= t.take(i as int));
            assert(t.take(i + 1).last() == t[i as int]);
            let e = &other.entries[i];
            self.insert(e.0.clone(), e.1.clone());
            assert(self@ =~= base.union_prefer_right(pairs_view(t.take(i + 1))));
        }
        assert(t.take(n as int) =~= t);
    }

    /// The variables of a list of pairs; a later pair for a name overrides an earlier one.
    pub fn from_pairs(pairs: Vec<(String, String)>) -> (r: EnvVars)
        ensures
            r@ == pairs_view(pairs@),
    {
        let mut r = EnvVars::new();
        let n = pairs.len();
        for i in 0..n
            invariant
                n == pairs@.len(),
                r@ == pairs_view(pairs@.take(i as int)),
        {
            assert(pairs@.take(i + 1).drop_last() =~= pairs@.take(i as int));
            assert(pairs@.take(i + 1).last() == pairs@[i as int]);
            r.insert(pairs[i].0.clone(), pairs[i].1.clone());
        }
        assert(pairs@.take(n as int) =~= pairs@);
        r
    }

    /// The bindings as a list of pairs that describes the same map.
    pub fn to_pairs(&self) -> (r: Vec<(String, String)>)
        ensures
            pairs_view(r@) == self@,
    {
        let mut r: Vec<(String, String)> = Vec::new();
        let n = self.entries.len();
        for i in 0..n
            invariant
                n == self.entries@.len(),
                pairs_view(r@) == pairs_view(self.entries@.take(i as int)),
        {
            let ghost before = r@;
            let e = &self.entries[i];
            r.push((e.0.clone(), e.1.clone()));
            assert(r@.drop_last() =~= before);
            assert(self.entries@.take(i + 1).drop_last() =~= self.entries@.take(i as int));
        }
        assert(self.entries@.take(n as int) =~= self.entries@);
        r
    }

    /// Is no variable bound?
    pub fn is_empty(&self) -> (r: bool)
        ensures
            r == (self@ == Map::<Seq<char>, Seq<char>>::empty()),
    {
        if self.entries.len() == 0 {
            true
        } else {
            assert(self@.contains_key(self.entries@.last().0@));
            false
        }
    }
}

} // verus!
