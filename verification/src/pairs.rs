//! Lists of named values in which a later entry shadows an earlier one of
//! the same name.

use vstd::prelude::*;
use crate::text::same_text;

verus! {

/// The value that `name` stands for in `pairs`: that of the last entry so
/// named, if there is one.
pub open spec fn lookup<T>(pairs: Seq<(Seq<char>, T)>, name: Seq<char>) -> Option<T>
    decreases pairs.len(),
{
    if pairs.len() == 0 {
        None
    } else if pairs.last().0 == name {
        Some(pairs.last().1)
    } else {
        lookup(pairs.drop_last(), name)
    }
}

/// `lookup` finds the entry at `i` when no later entry bears the name.
pub proof fn lemma_lookup_found<T>(pairs: Seq<(Seq<char>, T)>, name: Seq<char>, i: int)
    requires
        0 <= i < pairs.len(),
        pairs[i].0 == name,
        forall|j: int| i < j < pairs.len() ==> pairs[j].0 != name,
    ensures
        lookup(pairs, name) == Some(pairs[i].1),
    decreases pairs.len(),
{
    if i < pairs.len() - 1 {
        lemma_lookup_found(pairs.drop_last(), name, i);
    }
}

/// `lookup` finds nothing when no entry bears the name.
pub proof fn lemma_lookup_absent<T>(pairs: Seq<(Seq<char>, T)>, name: Seq<char>)
    requires
        forall|j: int| 0 <= j < pairs.len() ==> pairs[j].0 != name,
    ensures
        lookup(pairs, name) is None,
    decreases pairs.len(),
{
    if pairs.len() > 0 {
        lemma_lookup_absent(pairs.drop_last(), name);
    }
}

/// An entry behind the others shadows those of its name and no other.
pub proof fn lemma_lookup_push<T>(
    pairs: Seq<(Seq<char>, T)>,
    entry: (Seq<char>, T),
    name: Seq<char>,
)
    ensures
        lookup(pairs.push(entry), name) == if entry.0 == name {
            Some(entry.1)
        } else {
            lookup(pairs, name)
        },
{
    assert(pairs.push(entry).drop_last() =~= pairs);
}

/// The place of the last entry of `pairs` that bears `name`.
pub fn find_last<T>(pairs: &Vec<(String, T)>, name: &str) -> (found: Option<usize>)
    ensures
        match found {
            Some(i) => i < pairs.len() && pairs[i as int].0@ == name@ && forall|j: int|
                i < j < pairs.len() ==> pairs[j].0@ != name@,
            None => forall|j: int| 0 <= j < pairs.len() ==> pairs[j].0@ != name@,
        },
{
    let mut i: usize = pairs.len();
    while i > 0
        invariant
            i <= pairs.len(),
            forall|j: int| i <= j < pairs.len() ==> pairs[j].0@ != name@,
        decreases i,
    {
        i -= 1;
        if same_text(pairs[i].0.as_str(), name) {
            return Some(i);
        }
    }
    None
}

} // verus!
