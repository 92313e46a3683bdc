//! Choosing a line of the mapping table for a title.
//!
//! Everything here works on texts that are already in lower case: the keys of
//! the table in table order, and the title. A key matches exactly when it
//! equals the title, and partially when the title contains it. An exact match
//! anywhere in the table wins over every partial match; within one kind the
//! first line wins.

use crate::first::{
    first_true, is_first, lemma_first_true, lemma_first_true_at, lemma_first_true_none,
};
use crate::text::{contains, is_substring};
use vstd::prelude::*;

verus! {

/// For each key, whether it equals `wanted`.
pub open spec fn equal_flags(keys: Seq<Seq<char>>, wanted: Seq<char>) -> Seq<bool> {
    Seq::new(keys.len(), |i: int| keys[i] == wanted)
}

/// For each key, whether `title` contains it.
pub open spec fn part_flags(keys: Seq<Seq<char>>, title: Seq<char>) -> Seq<bool> {
    Seq::new(keys.len(), |i: int| is_substring(keys[i], title))
}

/// The first key that equals `wanted`.
pub open spec fn first_exact(keys: Seq<Seq<char>>, wanted: Seq<char>) -> Option<int> {
    first_true(equal_flags(keys, wanted))
}

/// The first key that `title` contains.
pub open spec fn first_partial(keys: Seq<Seq<char>>, title: Seq<char>) -> Option<int> {
    first_true(part_flags(keys, title))
}

/// The line chosen for `title`: the first exact match, else the first partial
/// match, else none.
pub open spec fn select(keys: Seq<Seq<char>>, title: Seq<char>) -> Option<int> {
    match first_exact(keys, title) {
        Some(i) => Some(i),
        None => first_partial(keys, title),
    }
}

/// An optional index as a mathematical integer.
pub open spec fn index_view(index: Option<usize>) -> Option<int> {
    match index {
        Some(i) => Some(i as int),
        None => None,
    }
}

/// Finds the first key that equals `wanted`.
pub fn find_exact(keys: &Vec<String>, wanted: &str) -> (found: Option<usize>)
    ensures
        index_view(found) == first_exact(keys.deep_view(), wanted@),
        match found {
            Some(i) => i < keys.len() && keys[i as int]@ == wanted@ && forall|j: int|
                0 <= j < i ==> (#[trigger] keys[j])@ != wanted@,
            None => forall|j: int| 0 <= j < keys.len() ==> (#[trigger] keys[j])@ != wanted@,
        },
{
    let wanted_text = wanted.to_owned();
    let ghost flags = equal_flags(keys.deep_view(), wanted@);
    let mut i: usize = 0;
    while i < keys.len()
        invariant
            i <= keys.len(),
            wanted_text@ == wanted@,
            flags == equal_flags(keys.deep_view(), wanted@),
            forall|j: int| 0 <= j < i ==> (#[trigger] keys[j])@ != wanted@,
        decreases keys.len() - i,
    {
        if keys[i] == wanted_text {
            proof {
                assert forall|j: int| 0 <= j < i implies !flags[j] by {
                    assert(keys[j]@ != wanted@);
                }
                lemma_first_true_at(flags, i as int);
            }
            return Some(i);
        }
        i += 1;
    }
    proof {
        assert forall|j: int| 0 <= j < flags.len() implies !flags[j] by {
            assert(keys[j]@ != wanted@);
        }
        lemma_first_true_none(flags);
    }
    None
}

/// Finds the first key that `title` contains.
pub fn find_partial(keys: &Vec<String>, title: &str) -> (found: Option<usize>)
    ensures
        index_view(found) == first_partial(keys.deep_view(), title@),
        match found {
            Some(i) => i < keys.len() && is_substring(keys[i as int]@, title@) && forall|j: int|
                0 <= j < i ==> !is_substring((#[trigger] keys[j])@, title@),
            None => forall|j: int|
                0 <= j < keys.len() ==> !is_substring((#[trigger] keys[j])@, title@),
        },
{
    let ghost flags = part_flags(keys.deep_view(), title@);
    let mut i: usize = 0;
    while i < keys.len()
        invariant
            i <= keys.len(),
            flags == part_flags(keys.deep_view(), title@),
            forall|j: int| 0 <= j < i ==> !is_substring((#[trigger] keys[j])@, title@),
        decreases keys.len() - i,
    {
        if contains(title, keys[i].as_str()) {
            proof {
                assert forall|j: int| 0 <= j < i implies !flags[j] by {
                    assert(!is_substring(keys[j]@, title@));
                }
                lemma_first_true_at(flags, i as int);
            }
            return Some(i);
        }
        i += 1;
    }
    proof {
        assert forall|j: int| 0 <= j < flags.len() implies !flags[j] by {
            assert(!is_substring(keys[j]@, title@));
        }
        lemma_first_true_none(flags);
    }
    None
}

/// Chooses the line for `title`: the first key that equals it, else the first
/// key that it contains.
pub fn find_mapping(keys: &Vec<String>, title: &str) -> (found: Option<usize>)
    ensures
        index_view(found) == select(keys.deep_view(), title@),
        found matches Some(i) ==> i < keys.len(),
{
    match find_exact(keys, title) {
        Some(i) => Some(i),
        None => find_partial(keys, title),
    }
}

/// A key that equals the title is chosen before every key that the title only
/// contains, wherever the two stand in the table: with a key equal to the
/// title at `at`, the chosen line is the first whose key equals the title.
pub proof fn lemma_exact_match_wins(keys: Seq<Seq<char>>, title: Seq<char>, at: int)
    requires
        0 <= at < keys.len(),
        keys[at] == title,
    ensures
        select(keys, title) matches Some(i) && is_first(equal_flags(keys, title), i) && i <= at,
{
    let flags = equal_flags(keys, title);
    lemma_first_true(flags);
    assert(flags[at]);
}

/// A line is chosen by a partial match only where no key equals the title.
pub proof fn lemma_partial_match_needs_no_exact(keys: Seq<Seq<char>>, title: Seq<char>)
    requires
        select(keys, title) matches Some(i) && 0 <= i < keys.len() && keys[i] != title,
    ensures
        forall|j: int| 0 <= j < keys.len() ==> keys[j] != title,
        select(keys, title) matches Some(i) && is_first(part_flags(keys, title), i),
{
    let exact = equal_flags(keys, title);
    lemma_first_true(exact);
    lemma_first_true(part_flags(keys, title));
    assert forall|j: int| 0 <= j < keys.len() implies keys[j] != title by {
        assert(!exact[j]);
    }
}

/// What `select` chooses, in full: the first key equal to the title; where
/// there is none, the first key that the title contains; where there is none
/// either, nothing.
pub proof fn lemma_select(keys: Seq<Seq<char>>, title: Seq<char>)
    ensures
        match select(keys, title) {
            Some(i) => is_first(equal_flags(keys, title), i) || ((forall|j: int|
                0 <= j < keys.len() ==> keys[j] != title) && is_first(part_flags(keys, title), i)),
            None => forall|j: int|
                0 <= j < keys.len() ==> keys[j] != title && !is_substring(keys[j], title),
        },
{
    let exact = equal_flags(keys, title);
    let part = part_flags(keys, title);
    lemma_first_true(exact);
    lemma_first_true(part);
    if first_true(exact) is None {
        assert forall|j: int| 0 <= j < keys.len() implies keys[j] != title by {
            assert(!exact[j]);
        }
        if first_true(part) is None {
            assert forall|j: int| 0 <= j < keys.len() implies !is_substring(keys[j], title) by {
                assert(!part[j]);
            }
        }
    }
}

} // verus!
