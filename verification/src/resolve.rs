//! Resolving lists of labels against the labels of a namespace.

use vstd::prelude::*;
use crate::label::{find_label, is_first_at, names_of, position, ShaderLabel};

verus! {

/// The index that `name` resolves to in `names`; meaningful only where the
/// name is known.
pub open spec fn slot(names: Seq<Seq<char>>, name: Seq<char>) -> int {
    match position(names, name) {
        Some(i) => i,
        None => -1,
    }
}

/// Every wanted name stands in `names`.
pub open spec fn all_known(names: Seq<Seq<char>>, wanted: Seq<Seq<char>>) -> bool {
    forall|k: int| 0 <= k < wanted.len() ==> position(names, #[trigger] wanted[k]).is_some()
}

/// `indices` holds, for each wanted name in order, the index at which it
/// first stands in `names`.
pub open spec fn resolves(
    names: Seq<Seq<char>>,
    wanted: Seq<Seq<char>>,
    indices: Seq<usize>,
) -> bool {
    &&& indices.len() == wanted.len()
    &&& forall|k: int|
        0 <= k < wanted.len() ==> position(names, #[trigger] wanted[k]) == Some(
            indices[k] as int,
        )
}

/// Where no name stands twice, each name resolves to its own place.
pub proof fn lemma_slot_of_own_name(names: Seq<Seq<char>>, t: int)
    requires
        0 <= t < names.len(),
        !crate::label::has_duplicate(names),
    ensures
        position(names, names[t]) == Some(t),
{
    assert forall|j: int| 0 <= j < t implies names[j] != names[t] by {
        if names[j] == names[t] {
            assert(0 <= j < t < names.len() && names[j] == names[t]);
        }
    }
    assert(is_first_at(names, names[t], t));
    crate::label::lemma_position_at(names, names[t], t);
}

/// Resolves each wanted label to the index of its first occurrence among
/// `labels`; nothing where one of them is unknown.
pub fn resolve_all(labels: &Vec<ShaderLabel>, wanted: &Vec<ShaderLabel>) -> (found: Option<
    Vec<usize>,
>)
    ensures
        match found {
            Some(indices) => resolves(names_of(labels@), names_of(wanted@), indices@),
            None => !all_known(names_of(labels@), names_of(wanted@)),
        },
{
    let ghost names = names_of(labels@);
    let ghost asked = names_of(wanted@);
    let mut indices: Vec<usize> = Vec::new();
    let mut k: usize = 0;
    while k < wanted.len()
        invariant
            k <= wanted.len(),
            names == names_of(labels@),
            asked == names_of(wanted@),
            indices@.len() == k,
            forall|m: int|
                0 <= m < k ==> position(names, #[trigger] asked[m]) == Some(indices@[m] as int),
        decreases wanted.len() - k,
    {
        match find_label(labels, &wanted[k]) {
            Some(i) => {
                indices.push(i);
            },
            None => {
                assert(position(names, asked[k as int]).is_none());
                return None;
            },
        }
        k += 1;
    }
    Some(indices)
}

} // verus!
