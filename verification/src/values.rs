//! The layered key/value settings that a configuration is read from.
use vstd::prelude::*;
use crate::text::{owned, spec_starts_with, starts_with, str_equal};

verus! {

/// Key/value pairs of text, as they are written down.
pub open spec fn pairs_view(v: Seq<(String, String)>) -> Seq<(Seq<char>, Seq<char>)> {
    v.map_values(|e: (String, String)| (e.0@, e.1@))
}

/// The value of the last pair with key `k`, if any.
pub open spec fn lookup(s: Seq<(Seq<char>, Seq<char>)>, k: Seq<char>) -> Option<Seq<char>>
    decreases s.len(),
{
    if s.len() == 0 {
        None
    } else if s.last().0 == k {
        Some(s.last().1)
    } else {
        lookup(s.drop_last(), k)
    }
}

/// The map that a list of pairs amounts to when later pairs override earlier ones.
pub open spec fn pairs_map(s: Seq<(Seq<char>, Seq<char>)>) -> Map<Seq<char>, Seq<char>> {
    Map::new(|k: Seq<char>| lookup(s, k) is Some, |k: Seq<char>| lookup(s, k)->0)
}

/// The pairs whose key begins with `prefix`, as a map.
pub open spec fn prefixed_map(s: Seq<(Seq<char>, Seq<char>)>, prefix: Seq<char>) -> Map<
    Seq<char>,
    Seq<char>,
> {
    pairs_map(s).restrict(Set::new(|k: Seq<char>| spec_starts_with(k, prefix)))
}

/// A set of settings: a map from names to values, where a later `insert`
/// replaces an earlier value of the same name.
#[derive(Debug)]
pub struct ConfigValues {
    entries: Vec<(String, String)>,
}

impl View for ConfigValues {
    type V = Map<Seq<char>, Seq<char>>;

    closed spec fn view(&self) -> Map<Seq<char>, Seq<char>> {
        pairs_map(pairs_view(self.entries@))
    }
}

proof fn lemma_pairs_map_push(s: Seq<(Seq<char>, Seq<char>)>, k: Seq<char>, v: Seq<char>)
    ensures
        pairs_map(s.push((k, v))) == pairs_map(s).insert(k, v),
{
    assert(s.push((k, v)).drop_last() =~= s);
    assert(pairs_map(s.push((k, v))) =~= pairs_map(s).insert(k, v));
}

/// Adding a pair at the end of a list sets its key in the map.
pub proof fn lemma_pairs_map_push_pub(s: Seq<(Seq<char>, Seq<char>)>, k: Seq<char>, v: Seq<char>)
    ensures
        pairs_map(s.push((k, v))) == pairs_map(s).insert(k, v),
{
    lemma_pairs_map_push(s, k, v);
}

impl ConfigValues {
    /// No settings at all.
    pub fn new() -> (r: ConfigValues)
        ensures
            r@ == Map::<Seq<char>, Seq<char>>::empty(),
    {
        let r = ConfigValues { entries: Vec::new() };
        assert(pairs_view(r.entries@) =~= Seq::empty());
        assert(r@ =~= Map::<Seq<char>, Seq<char>>::empty());
        r
    }

    /// Sets `key` to `value`, replacing any earlier value.
    pub fn insert(&mut self, key: String, value: String)
        ensures
            final(self)@ == old(self)@.insert(key@, value@),
    {
        let ghost before = pairs_view(self.entries@);
        self.entries.push((key, value));
        proof {
            assert(pairs_view(self.entries@) =~= before.push((key@, value@)));
            lemma_pairs_map_push(before, key@, value@);
        }
    }

    /// The value of `key`, if it has one.
    pub fn get(&self, key: &str) -> (r: Option<String>)
        ensures
            match r {
                Some(v) => self@.contains_key(key@) && self@[key@] == v@,
                None => !self@.contains_key(key@),
            },
    {
        let ghost s = pairs_view(self.entries@);
        let mut i = self.entries.len();
        assert(s.take(i as int) =~= s);
        while i > 0
            invariant
                i <= self.entries.len(),
                s == pairs_view(self.entries@),
                lookup(s, key@) == lookup(s.take(i as int), key@),
            decreases i,
        {
            let entry = &self.entries[i - 1];
            assert(s.take(i as int).drop_last() =~= s.take(i - 1));
            if str_equal(entry.0.as_str(), key) {
                return Some(entry.1.clone());
            }
            i = i - 1;
        }
        None
    }

    /// Inserts every pair of `other`, in order: the result is `other`
    /// laid over `self`.
    pub fn overlay(&mut self, other: &ConfigValues)
        ensures
            final(self)@ == old(self)@.union_prefer_right(other@),
    {
        let ghost s = pairs_view(other.entries@);
        let mut i: usize = 0;
        while i < other.entries.len()
            invariant
                i <= other.entries.len(),
                s == pairs_view(other.entries@),
                self@ == old(self)@.union_prefer_right(pairs_map(s.take(i as int))),
            decreases other.entries.len() - i,
        {
            let entry = &other.entries[i];
            let ghost before = self@;
            self.insert(entry.0.clone(), entry.1.clone());
            proof {
                assert(s.take(i + 1) =~= s.take(i as int).push((entry.0@, entry.1@)));
                lemma_pairs_map_push(s.take(i as int), entry.0@, entry.1@);
                assert(self@ =~= old(self)@.union_prefer_right(pairs_map(s.take(i + 1))));
            }
            i = i + 1;
        }
        assert(s.take(other.entries.len() as int) =~= s);
    }

    /// Inserts, in order, the pairs of `vars` whose name begins with `prefix`.
    pub fn overlay_prefixed(&mut self, vars: &Vec<(String, String)>, prefix: &str)
        ensures
            final(self)@ == old(self)@.union_prefer_right(
                prefixed_map(pairs_view(vars@), prefix@),
            ),
    {
        let ghost s = pairs_view(vars@);
        let mut i: usize = 0;
        while i < vars.len()
            invariant
                i <= vars.len(),
                s == pairs_view(vars@),
                self@ == old(self)@.union_prefer_right(prefixed_map(s.take(i as int), prefix@)),
            decreases vars.len() - i,
        {
            let entry = &vars[i];
            proof {
                assert(s.take(i + 1) =~= s.take(i as int).push((entry.0@, entry.1@)));
                lemma_pairs_map_push(s.take(i as int), entry.0@, entry.1@);
            }
            if starts_with(entry.0.as_str(), prefix) {
                self.insert(entry.0.clone(), entry.1.clone());
                assert(self@ =~= old(self)@.union_prefer_right(
                    prefixed_map(s.take(i + 1), prefix@),
                ));
            } else {
                assert(self@ =~= old(self)@.union_prefer_right(
                    prefixed_map(s.take(i + 1), prefix@),
                ));
            }
            i = i + 1;
        }
        assert(s.take(vars.len() as int) =~= s);
    }

    /// Sets `key` to `value` (a name given as text).
    pub fn set(&mut self, key: &str, value: String)
        ensures
            final(self)@ == old(self)@.insert(key@, value@),
    {
        self.insert(owned(key), value);
    }
}

} // verus!
