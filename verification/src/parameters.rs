//! Collection of a statement's named parameters: the distinct parameter
//! names with their prefix character removed, in first-occurrence order,
//! together with the statement's parameter count adjusted so that names
//! that collide after the prefix is removed are counted once.
use vstd::prelude::*;

use crate::parse::{collect_parameters, params_of};

verus! {

broadcast use vstd::std_specs::vec::group_vec_axioms;

/// The named parameters of one statement: `names` holds each distinct
/// name (prefix character removed) once, in order of first occurrence;
/// `count` is the statement's parameter count with those collisions
/// collapsed.
pub struct Parameters {
    pub count: u32,
    pub names: Vec<String>,
}

/// A parameter name with its first character (the `:`/`@`/`$` prefix)
/// removed; an empty name is left as it is.
pub open spec fn spec_strip_prefix(s: Seq<char>) -> Seq<char> {
    if s.len() == 0 {
        s
    } else {
        s.drop_first()
    }
}

/// First-occurrence deduplication: each name keeps its leftmost position,
/// later repetitions are dropped.
pub open spec fn spec_dedup(names: Seq<Seq<char>>) -> Seq<Seq<char>>
    decreases names.len(),
{
    if names.len() == 0 {
        Seq::empty()
    } else {
        let rest = spec_dedup(names.drop_last());
        if rest.contains(names.last()) {
            rest
        } else {
            rest.push(names.last())
        }
    }
}

/// What `parse_query_parameters` computes from the raw parameter
/// information: the stripped, deduplicated names, and the count lowered
/// by the number of names the deduplication dropped (never below zero).
pub open spec fn spec_parameters(raw: Option<(u16, Seq<Seq<char>>)>) -> Option<
    (int, Seq<Seq<char>>),
> {
    match raw {
        None => None,
        Some((count, names)) => {
            let stripped = names.map_values(|n: Seq<char>| spec_strip_prefix(n));
            let unique = spec_dedup(stripped);
            let dropped = stripped.len() - unique.len();
            Some((if count >= dropped { count - dropped } else { 0 }, unique))
        }
    }
}

/// Deduplication never adds names.
pub proof fn lemma_dedup_len(names: Seq<Seq<char>>)
    ensures
        spec_dedup(names).len() <= names.len(),
    decreases names.len(),
{
    if names.len() > 0 {
        lemma_dedup_len(names.drop_last());
    }
}

#[verifier::loop_isolation(false)]
fn names_contain(names: &Vec<String>, s: &String) -> (r: bool)
    ensures
        r == names.deep_view().contains(s@),
{
    let mut i: usize = 0;
    while i < names.len()
        invariant
            0 <= i <= names@.len(),
            forall|k: int| 0 <= k < i ==> names.deep_view()[k] != s@,
        decreases names@.len() - i,
    {
        let ni = &names[i];
        if *ni == *s {
            assert(names.deep_view()[i as int] == s@);
            return true;
        }
        i += 1;
    }
    assert(forall|k: int|
        0 <= k < names.deep_view().len() ==> names.deep_view()[k] != s@);
    false
}

/// Collect the statement's named parameters, deduplicated after their
/// prefix character is removed, preserving first-occurrence order; `None`
/// exactly when the query does not parse.
#[verifier::loop_isolation(false)]
pub fn parse_query_parameters(query: String) -> (r: Option<Parameters>)
    ensures
        match r {
            Some(p) => spec_parameters(params_of(query@)) == Some(
                (p.count as int, p.names.deep_view()),
            ),
            None => params_of(query@) is None,
        },
{
    let (count, raw_names) = match collect_parameters(query.as_str()) {
        Some(p) => p,
        None => {
            return None;
        }
    };
    let ghost raw: Seq<Seq<char>> = raw_names.deep_view();
    let ghost stripped_spec: Seq<Seq<char>> = raw.map_values(|n: Seq<char>| spec_strip_prefix(n));

    // Remove the prefix character of each name.
    let mut stripped: Vec<String> = Vec::new();
    let mut i: usize = 0;
    while i < raw_names.len()
        invariant
            0 <= i <= raw_names@.len(),
            stripped@.len() == i,
            forall|k: int|
                0 <= k < i ==> (#[trigger] stripped@[k])@ == spec_strip_prefix(raw_names@[k]@),
        decreases raw_names@.len() - i,
    {
        let n = &raw_names[i];
        let len = n.as_str().unicode_len();
        if len == 0 {
            stripped.push(n.clone());
        } else {
            let tail = n.as_str().substring_char(1, len);
            proof {
                assert(tail@ =~= spec_strip_prefix(n@));
            }
            stripped.push(tail.to_owned());
        }
        proof {
            assert(stripped@[i as int]@ == spec_strip_prefix(raw_names@[i as int]@));
        }
        i += 1;
    }
    proof {
        assert forall|k: int| 0 <= k < stripped.deep_view().len() implies stripped.deep_view()[k]
            == stripped_spec[k] by {
            assert(stripped@[k]@ == spec_strip_prefix(raw_names@[k]@));
        }
        assert(stripped.deep_view() =~= stripped_spec);
    }

    // Keep the first occurrence of each stripped name.
    let mut unique: Vec<String> = Vec::new();
    let mut j: usize = 0;
    while j < stripped.len()
        invariant
            0 <= j <= stripped@.len(),
            stripped.deep_view() == stripped_spec,
            unique.deep_view() == spec_dedup(stripped_spec.take(j as int)),
        decreases stripped@.len() - j,
    {
        proof {
            assert(stripped_spec.take(j as int + 1).drop_last() =~= stripped_spec.take(j as int));
            assert(stripped_spec.take(j as int + 1).last() == stripped.deep_view()[j as int]);
        }
        let name = stripped[j].clone();
        if !names_contain(&unique, &name) {
            unique.push(name);
        }
        j += 1;
    }
    proof {
        assert(stripped_spec.take(stripped_spec.len() as int) =~= stripped_spec);
        lemma_dedup_len(stripped_spec);
    }

    let dropped: usize = stripped.len() - unique.len();
    let c: u32 = count as u32;
    let adjusted: u32 = if dropped <= c as usize {
        c - (dropped as u32)
    } else {
        0
    };
    Some(Parameters { count: adjusted, names: unique })
}

} // verus!
