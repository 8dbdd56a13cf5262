//! Resolving a device name.
//!
//! A request names its output device. The name is held against the names of
//! the devices as the host enumerated them: it must equal one of them
//! character for character, and where several devices carry it the first
//! one enumerated is meant. A name that no device carries resolves to no
//! device; the host's default device never stands in for it.

use vstd::prelude::*;

verus! {

/// Whether `index` is the place of the first name in `names` that is exactly
/// `wanted`: the name there equals it character for character, and no name
/// before it does.
pub open spec fn is_first_match(names: Seq<Seq<char>>, wanted: Seq<char>, index: int) -> bool {
    &&& 0 <= index < names.len()
    &&& names[index] == wanted
    &&& forall|j: int| 0 <= j < index ==> names[j] != wanted
}

/// The place of the device that a request for `wanted` resolves to: the first
/// in enumeration order that carries exactly that name, or none.
pub open spec fn first_match(names: Seq<Seq<char>>, wanted: Seq<char>) -> Option<int> {
    if exists|i: int| is_first_match(names, wanted, i) {
        Some(choose|i: int| is_first_match(names, wanted, i))
    } else {
        None
    }
}

/// At most one place is the first match.
pub proof fn lemma_first_match_unique(names: Seq<Seq<char>>, wanted: Seq<char>, i: int, j: int)
    requires
        is_first_match(names, wanted, i),
        is_first_match(names, wanted, j),
    ensures
        i == j,
{
    if i < j {
        assert(names[i] != wanted);
    } else if j < i {
        assert(names[j] != wanted);
    }
}

/// A place that is the first match is the one that `first_match` names.
pub proof fn lemma_first_match_is(names: Seq<Seq<char>>, wanted: Seq<char>, i: int)
    requires
        is_first_match(names, wanted, i),
    ensures
        first_match(names, wanted) == Some(i),
{
    let chosen = choose|k: int| is_first_match(names, wanted, k);
    lemma_first_match_unique(names, wanted, i, chosen);
}

/// Where the name stands somewhere, it stands somewhere first.
proof fn lemma_first_match_exists(names: Seq<Seq<char>>, wanted: Seq<char>, at: int)
    requires
        0 <= at < names.len(),
        names[at] == wanted,
    ensures
        exists|i: int| is_first_match(names, wanted, i),
    decreases at,
{
    if exists|j: int| 0 <= j < at && names[j] == wanted {
        let j = choose|j: int| 0 <= j < at && names[j] == wanted;
        lemma_first_match_exists(names, wanted, j);
    } else {
        assert(is_first_match(names, wanted, at));
    }
}

/// A name resolves to the first place at which it stands, and to none
/// exactly when no device carries it.
pub proof fn lemma_first_match_is_least(names: Seq<Seq<char>>, wanted: Seq<char>)
    ensures
        match first_match(names, wanted) {
            Some(i) => is_first_match(names, wanted, i),
            None => !names.contains(wanted),
        },
        first_match(names, wanted) is Some <==> names.contains(wanted),
{
    if names.contains(wanted) {
        let at = choose|i: int| 0 <= i < names.len() && names[i] == wanted;
        lemma_first_match_exists(names, wanted, at);
    }
    if first_match(names, wanted) is Some {
        let i = choose|i: int| is_first_match(names, wanted, i);
        assert(names[i] == wanted);
    }
}

/// Resolves a device name against the names of the enumerated output
/// devices, given in enumeration order.
///
/// The match is exact and case-sensitive. Where several devices carry the
/// name, the first one enumerated is taken.
pub fn select_device(names: &Vec<String>, wanted: &str) -> (found: Option<usize>)
    ensures
        match found {
            Some(i) => {
                &&& is_first_match(names.deep_view(), wanted@, i as int)
                &&& first_match(names.deep_view(), wanted@) == Some(i as int)
            },
            None => {
                &&& !names.deep_view().contains(wanted@)
                &&& first_match(names.deep_view(), wanted@) is None
            },
        },
{
    let wanted_name = wanted.to_owned();
    let mut i: usize = 0;
    while i < names.len()
        invariant
            i <= names.len(),
            wanted_name@ == wanted@,
            forall|j: int| 0 <= j < i ==> names.deep_view()[j] != wanted@,
        decreases names.len() - i,
    {
        if names[i] == wanted_name {
            proof {
                lemma_first_match_is(names.deep_view(), wanted@, i as int);
            }
            return Some(i);
        }
        i += 1;
    }
    None
}

} // verus!
