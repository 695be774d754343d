//! A check that every named parameter of a statement starts with one
//! given prefix character.
use vstd::prelude::*;

use crate::parse::{collect_parameters, params_of};

verus! {

broadcast use vstd::std_specs::vec::group_vec_axioms;

/// Whether the name starts with the prefix character; an empty name
/// does not.
pub open spec fn spec_starts_with(s: Seq<char>, prefix: char) -> bool {
    s.len() > 0 && s[0] == prefix
}

/// Whether every name in the list starts with the prefix character.
pub open spec fn spec_all_start_with(names: Seq<Seq<char>>, prefix: char) -> bool {
    forall|i: int| 0 <= i < names.len() ==> spec_starts_with(#[trigger] names[i], prefix)
}

/// Whether all of the statement's named parameters start with the given
/// prefix character; `None` exactly when the query does not parse.
#[verifier::loop_isolation(false)]
pub fn does_all_named_parameters_start_with_prefix(query: &str, prefix: char) -> (r: Option<bool>)
    ensures
        match params_of(query@) {
            Some(p) => r == Some(spec_all_start_with(p.1, prefix)),
            None => r is None,
        },
{
    let (_count, names) = match collect_parameters(query) {
        Some(p) => p,
        None => {
            return None;
        }
    };
    let mut i: usize = 0;
    while i < names.len()
        invariant
            0 <= i <= names@.len(),
            forall|k: int|
                0 <= k < i ==> spec_starts_with(#[trigger] names.deep_view()[k], prefix),
        decreases names@.len() - i,
    {
        let n = &names[i];
        let len = n.as_str().unicode_len();
        if len == 0 || n.as_str().get_char(0) != prefix {
            assert(!spec_starts_with(names.deep_view()[i as int], prefix));
            return Some(false);
        }
        i += 1;
    }
    Some(true)
}

} // verus!
