//! The parameters of a query string.

use vstd::prelude::*;
use crate::pairs::{find_last, lemma_lookup_absent, lemma_lookup_found, lemma_lookup_push, lookup};

verus! {

/// The parameters of a query string, by name. Of two parameters with one
/// name, the later one counts.
#[derive(Debug, Clone, PartialEq, Eq)]
pub struct QueryParams {
    pub pairs: Vec<(String, String)>,
}

impl View for QueryParams {
    type V = Seq<(Seq<char>, Seq<char>)>;

    open spec fn view(&self) -> Seq<(Seq<char>, Seq<char>)> {
        Seq::new(self.pairs.len() as nat, |i: int| (self.pairs[i].0@, self.pairs[i].1@))
    }
}

impl QueryParams {
    /// No parameters.
    pub fn new() -> (params: QueryParams)
        ensures
            params@ == Seq::<(Seq<char>, Seq<char>)>::empty(),
    {
        let params = QueryParams { pairs: Vec::new() };
        assert(params@ =~= Seq::empty());
        params
    }

    /// Sets the parameter `name` to `value`.
    pub fn insert(&mut self, name: String, value: String)
        ensures
            final(self)@ == old(self)@.push((name@, value@)),
            lookup(final(self)@, name@) == Some(value@),
            forall|other: Seq<char>|
                other != name@ ==> lookup(final(self)@, other) == lookup(old(self)@, other),
    {
        self.pairs.push((name, value));
        assert(self@ =~= old(self)@.push((name@, value@)));
        proof {
            lemma_lookup_push(old(self)@, (name@, value@), name@);
        }
        assert forall|other: Seq<char>| other != name@ implies lookup(self@, other) == lookup(
            old(self)@,
            other,
        ) by {
            lemma_lookup_push(old(self)@, (name@, value@), other);
        }
    }

    /// The value of the parameter `name`, if it is there.
    pub fn get(&self, name: &str) -> (found: Option<&String>)
        ensures
            match found {
                Some(value) => lookup(self@, name@) == Some(value@),
                None => lookup(self@, name@) is None,
            },
    {
        match find_last(&self.pairs, name) {
            Some(i) => {
                proof {
                    lemma_lookup_found(self@, name@, i as int);
                }
                Some(&self.pairs[i].1)
            },
            None => {
                proof {
                    lemma_lookup_absent(self@, name@);
                }
                None
            },
        }
    }

    /// Whether the parameter `name` is there.
    pub fn contains_key(&self, name: &str) -> (found: bool)
        ensures
            found == lookup(self@, name@) is Some,
    {
        self.get(name).is_some()
    }
}

} // verus!
