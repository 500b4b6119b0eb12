//! A small verified table keyed by path strings, the in-memory backing of
//! the virtual filesystems in this crate. Its mathematical model is a
//! `Map` from the key's characters to the stored value's deep view.

use vstd::prelude::*;
use crate::fs::path::str_eq;

verus! {

/// One table entry: a path and the value stored under it.
pub struct PathEntry<V> {
    pub path: String,
    pub val: V,
}

/// The map that a sequence of entries denotes; a later entry for the same
/// path wins, though a well-formed table never holds two.
pub open spec fn model_of<V: DeepView>(s: Seq<PathEntry<V>>) -> Map<Seq<char>, V::V>
    decreases s.len(),
{
    if s.len() == 0 {
        Map::empty()
    } else {
        model_of(s.drop_last()).insert(s.last().path@, s.last().val.deep_view())
    }
}

/// No two entries hold the same path.
pub open spec fn distinct_paths<V>(s: Seq<PathEntry<V>>) -> bool {
    forall|i: int, j: int| 0 <= i < j < s.len() ==> s[i].path@ != s[j].path@
}

/// A path is in the model exactly when some entry holds it.
pub proof fn lemma_model_contains<V: DeepView>(s: Seq<PathEntry<V>>, p: Seq<char>)
    ensures
        model_of(s).dom().contains(p) <==> exists|i: int|
            0 <= i < s.len() && (#[trigger] s[i].path@) == p,
    decreases s.len(),
{
    if s.len() > 0 {
        lemma_model_contains(s.drop_last(), p);
        if s.last().path@ == p {
            assert(s[s.len() - 1].path@ == p);
        } else {
            if model_of(s).dom().contains(p) {
                let i = choose|i: int| 0 <= i < s.drop_last().len()
                    && (#[trigger] s.drop_last()[i].path@) == p;
                assert(s[i].path@ == p);
            }
            if exists|i: int| 0 <= i < s.len() && (#[trigger] s[i].path@) == p {
                let i = choose|i: int| 0 <= i < s.len() && (#[trigger] s[i].path@) == p;
                assert(s.drop_last()[i].path@ == p);
            }
        }
    }
}

/// In a well-formed table, the model maps each entry's path to its value.
pub proof fn lemma_model_value<V: DeepView>(s: Seq<PathEntry<V>>, i: int)
    requires
        distinct_paths(s),
        0 <= i < s.len(),
    ensures
        model_of(s).dom().contains(s[i].path@),
        model_of(s)[s[i].path@] == s[i].val.deep_view(),
    decreases s.len(),
{
    if i < s.len() - 1 {
        assert(s.drop_last()[i] == s[i]);
        lemma_model_value(s.drop_last(), i);
        assert(s.last().path@ != s[i].path@);
    }
}

/// Replacing the value stored at an entry is an `insert` on the model.
pub proof fn lemma_model_update<V: DeepView>(s: Seq<PathEntry<V>>, i: int, e: PathEntry<V>)
    requires
        distinct_paths(s),
        0 <= i < s.len(),
        e.path@ == s[i].path@,
    ensures
        model_of(s.update(i, e)) =~= model_of(s).insert(e.path@, e.val.deep_view()),
    decreases s.len(),
{
    if i == s.len() - 1 {
        assert(s.update(i, e).drop_last() =~= s.drop_last());
    } else {
        assert(s.update(i, e).drop_last() =~= s.drop_last().update(i, e));
        lemma_model_update(s.drop_last(), i, e);
        assert(s.last().path@ != s[i].path@);
    }
}

/// Appending an entry is an `insert` on the model.
pub proof fn lemma_model_push<V: DeepView>(s: Seq<PathEntry<V>>, e: PathEntry<V>)
    ensures
        model_of(s.push(e)) =~= model_of(s).insert(e.path@, e.val.deep_view()),
{
    assert(s.push(e).drop_last() =~= s);
    assert(s.push(e).last() == e);
}

/// A table of values keyed by path, modelled as a `Map` from the path's
/// characters to the value's deep view.
pub struct PathTable<V> {
    pub entries: Vec<PathEntry<V>>,
}

impl<V: DeepView> PathTable<V> {
    /// The map this table denotes.
    pub open spec fn model(&self) -> Map<Seq<char>, V::V> {
        model_of(self.entries@)
    }

    /// Well-formedness: no path occurs twice.
    pub open spec fn wf(&self) -> bool {
        distinct_paths(self.entries@)
    }

    /// The empty table.
    pub fn new() -> (r: Self)
        ensures
            r.model() == Map::<Seq<char>, V::V>::empty(),
            r.wf(),
            r.entries@.len() == 0,
    {
        PathTable { entries: Vec::new() }
    }

    /// The index of the entry holding `path`, if any.
    fn find_idx(&self, path: &str) -> (r: Option<usize>)
        ensures
            match r {
                Some(i) => i < self.entries@.len() && self.entries@[i as int].path@ == path@,
                None => !self.model().dom().contains(path@),
            },
    {
        let n = self.entries.len();
        let mut i: usize = 0;
        while i < n
            invariant
                i <= n,
                n == self.entries@.len(),
                forall|k: int| 0 <= k < i ==> (#[trigger] self.entries@[k].path@) != path@,
            decreases n - i,
        {
            if str_eq(self.entries[i].path.as_str(), path) {
                return Some(i);
            }
            i = i + 1;
        }
        proof {
            lemma_model_contains(self.entries@, path@);
        }
        None
    }

    /// The value stored under `path`, if any.
    pub fn find(&self, path: &str) -> (r: Option<&V>)
        requires
            self.wf(),
        ensures
            match r {
                Some(v) => self.model().dom().contains(path@)
                    && v.deep_view() == self.model()[path@],
                None => !self.model().dom().contains(path@),
            },
    {
        match self.find_idx(path) {
            Some(i) => {
                proof {
                    lemma_model_value(self.entries@, i as int);
                }
                Some(&self.entries[i].val)
            },
            None => None,
        }
    }

    /// Whether the table holds `path`.
    pub fn contains(&self, path: &str) -> (r: bool)
        requires
            self.wf(),
        ensures
            r == self.model().dom().contains(path@),
    {
        self.find(path).is_some()
    }

    /// Stores `val` under `path`, replacing any earlier value.
    pub fn set(&mut self, path: String, val: V)
        requires
            old(self).wf(),
        ensures
            final(self).wf(),
            final(self).model() == old(self).model().insert(path@, val.deep_view()),
    {
        let ghost gpath = path@;
        let ghost gval = val.deep_view();
        match self.find_idx(path.as_str()) {
            Some(i) => {
                let ghost pre = self.entries@;
                let entry = PathEntry { path, val };
                proof {
                    lemma_model_update(pre, i as int, entry);
                }
                self.entries[i] = entry;
                proof {
                    assert forall|a: int, b: int|
                        0 <= a < b < self.entries@.len() implies self.entries@[a].path@
                        != self.entries@[b].path@ by {
                        assert(pre[a].path@ != pre[b].path@);
                    }
                }
            },
            None => {
                let ghost pre = self.entries@;
                let entry = PathEntry { path, val };
                proof {
                    lemma_model_push(pre, entry);
                    lemma_model_contains(pre, gpath);
                }
                self.entries.push(entry);
                proof {
                    assert forall|a: int, b: int|
                        0 <= a < b < self.entries@.len() implies self.entries@[a].path@
                        != self.entries@[b].path@ by {
                        if b < pre.len() {
                            assert(pre[a].path@ != pre[b].path@);
                        } else {
                            assert(self.entries@[b].path@ == gpath);
                            assert(self.entries@[a] == pre[a]);
                        }
                    }
                }
            },
        }
    }

    /// How many entries the table holds.
    pub fn entry_count(&self) -> (r: usize)
        ensures
            r == self.entries@.len(),
    {
        self.entries.len()
    }

    /// The entry at a position, for walking the table.
    pub fn entry_at(&self, i: usize) -> (r: &PathEntry<V>)
        requires
            i < self.entries@.len(),
        ensures
            *r == self.entries@[i as int],
    {
        &self.entries[i]
    }
}

} // verus!
