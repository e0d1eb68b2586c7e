//! The parameters of an endpoint declaration: a mapping from names to values,
//! kept in the order in which the bindings were made.

use vstd::prelude::*;
use vstd::string::*;

verus! {

/// The mapping that a list of bindings denotes: a later binding of a name
/// replaces an earlier one.
pub open spec fn bindings(entries: Seq<(Seq<char>, Seq<char>)>) -> Map<Seq<char>, Seq<char>>
    decreases entries.len(),
{
    if entries.len() == 0 {
        Map::empty()
    } else {
        bindings(entries.drop_last()).insert(entries.last().0, entries.last().1)
    }
}

/// The bindings of a list of string pairs, each string taken by its view.
pub open spec fn entry_views(entries: Seq<(String, String)>) -> Seq<(Seq<char>, Seq<char>)> {
    entries.map_values(|e: (String, String)| (e.0@, e.1@))
}

/// The binding at `at` is the one that `bindings` keeps for its name when no
/// later binding has the same name.
pub proof fn lemma_last_binding_wins(entries: Seq<(Seq<char>, Seq<char>)>, at: int)
    requires
        0 <= at < entries.len(),
        forall|j: int| at < j < entries.len() ==> entries[j].0 != entries[at].0,
    ensures
        bindings(entries).contains_key(entries[at].0),
        bindings(entries)[entries[at].0] == entries[at].1,
    decreases entries.len(),
{
    if at < entries.len() - 1 {
        lemma_last_binding_wins(entries.drop_last(), at);
    }
}

/// A name that no binding has is not in the mapping.
pub proof fn lemma_unbound_is_absent(entries: Seq<(Seq<char>, Seq<char>)>, name: Seq<char>)
    requires
        forall|j: int| 0 <= j < entries.len() ==> entries[j].0 != name,
    ensures
        !bindings(entries).contains_key(name),
    decreases entries.len(),
{
    if entries.len() > 0 {
        lemma_unbound_is_absent(entries.drop_last(), name);
    }
}

/// A string-to-string mapping. Its view is the `Map` of the bindings made.
#[derive(Debug)]
pub struct Params {
    entries: Vec<(String, String)>,
}

impl View for Params {
    type V = Map<Seq<char>, Seq<char>>;

    closed spec fn view(&self) -> Self::V {
        bindings(entry_views(self.entries@))
    }
}

impl Params {
    /// The empty mapping.
    pub fn new() -> (params: Self)
        ensures
            params@ == Map::<Seq<char>, Seq<char>>::empty(),
    {
        Params { entries: Vec::new() }
    }

    /// Binds `key` to `value`, replacing what `key` was bound to before.
    pub fn insert(&mut self, key: String, value: String)
        ensures
            final(self)@ == old(self)@.insert(key@, value@),
    {
        self.entries.push((key, value));
        proof {
            assert(entry_views(self.entries@).drop_last() =~= entry_views(old(self).entries@));
        }
    }

    /// The value that `key` is bound to, if it is bound.
    pub fn get(&self, key: &str) -> (value: Option<&String>)
        ensures
            match value {
                Some(v) => self@.contains_key(key@) && v@ == self@[key@],
                None => !self@.contains_key(key@),
            },
    {
        let mut i: usize = self.entries.len();
        while i > 0
            invariant
                i <= self.entries@.len(),
                forall|j: int| i <= j < self.entries@.len() ==> self.entries@[j].0@ != key@,
            decreases i,
        {
            i = i - 1;
            if self.entries[i].0.as_str().eq(key) {
                proof {
                    lemma_last_binding_wins(entry_views(self.entries@), i as int);
                }
                return Some(&self.entries[i].1);
            }
        }
        proof {
            lemma_unbound_is_absent(entry_views(self.entries@), key@);
        }
        None
    }

    /// The bindings in the order in which they were made; a name that was
    /// bound again occurs more than once, and its last binding counts.
    pub fn pairs(&self) -> (pairs: &Vec<(String, String)>)
        ensures
            bindings(entry_views(pairs@)) == self@,
    {
        &self.entries
    }

    /// Tells whether `key` is bound.
    pub fn contains_key(&self, key: &str) -> (bound: bool)
        ensures
            bound == self@.contains_key(key@),
    {
        self.get(key).is_some()
    }
}

impl Clone for Params {
    fn clone(&self) -> (copy: Self)
        ensures
            copy@ == self@,
    {
        let mut entries: Vec<(String, String)> = Vec::new();
        let mut i: usize = 0;
        while i < self.entries.len()
            invariant
                i <= self.entries@.len(),
                entries@.len() == i,
                forall|k: int|
                    0 <= k < i ==> entries@[k].0@ == self.entries@[k].0@ && entries@[k].1@
                        == self.entries@[k].1@,
            decreases self.entries@.len() - i,
        {
            let key = self.entries[i].0.clone();
            let value = self.entries[i].1.clone();
            entries.push((key, value));
            i = i + 1;
        }
        proof {
            assert(entry_views(entries@) =~= entry_views(self.entries@));
        }
        Params { entries }
    }
}

} // verus!
