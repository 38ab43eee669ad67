//! Labels: the names by which descriptors and passes refer to one another.

use vstd::prelude::*;

verus! {

/// A human-readable identifier, compared by value.
#[derive(Debug)]
pub struct ShaderLabel(pub String);

impl View for ShaderLabel {
    type V = Seq<char>;

    open spec fn view(&self) -> Seq<char> {
        self.0@
    }
}

impl Clone for ShaderLabel {
    fn clone(&self) -> (copy: Self)
        ensures
            copy == *self,
    {
        ShaderLabel(self.0.clone())
    }
}

/// The three kinds of thing a label can name. A label is unique among the
/// labels of its own kind only.
#[derive(Clone, Copy, Debug, PartialEq, Eq, Structural)]
pub enum Namespace {
    BufferGroup,
    BindGroup,
    Texture,
}

/// The names that a list of labels carries, in order.
pub open spec fn names_of(labels: Seq<ShaderLabel>) -> Seq<Seq<char>> {
    Seq::new(labels.len(), |i: int| labels[i]@)
}

/// `i` is the first place at which `name` stands in `names`.
pub open spec fn is_first_at(names: Seq<Seq<char>>, name: Seq<char>, i: int) -> bool {
    &&& 0 <= i < names.len()
    &&& names[i] == name
    &&& forall|j: int| 0 <= j < i ==> names[j] != name
}

/// Where `name` first stands in `names`, if anywhere.
pub open spec fn position(names: Seq<Seq<char>>, name: Seq<char>) -> Option<int> {
    if exists|i: int| is_first_at(names, name, i) {
        Some(choose|i: int| is_first_at(names, name, i))
    } else {
        None
    }
}

/// Some name stands at two places.
pub open spec fn has_duplicate(names: Seq<Seq<char>>) -> bool {
    exists|i: int, j: int| 0 <= i < j < names.len() && names[i] == names[j]
}

/// A first place is the only first place.
pub proof fn lemma_position_at(names: Seq<Seq<char>>, name: Seq<char>, i: int)
    requires
        is_first_at(names, name, i),
    ensures
        position(names, name) == Some(i),
{
    let k = choose|k: int| is_first_at(names, name, k);
    assert(is_first_at(names, name, k));
    if k < i {
        assert(names[k] != name);
    } else if i < k {
        assert(names[i] != name);
    }
}

/// A name that stands nowhere has no position.
pub proof fn lemma_position_none(names: Seq<Seq<char>>, name: Seq<char>)
    requires
        forall|j: int| 0 <= j < names.len() ==> names[j] != name,
    ensures
        position(names, name).is_none(),
{
}

/// A position, where there is one, is a first place; where there is none, the
/// name stands nowhere.
pub proof fn lemma_position_sound(names: Seq<Seq<char>>, name: Seq<char>)
    ensures
        match position(names, name) {
            Some(i) => is_first_at(names, name, i),
            None => forall|j: int| 0 <= j < names.len() ==> names[j] != name,
        },
{
    if position(names, name).is_none() {
        assert forall|j: int| 0 <= j < names.len() implies names[j] != name by {
            if names[j] == name {
                lemma_has_first(names, name, j);
            }
        }
    }
}

/// A name that stands somewhere has a first place.
pub proof fn lemma_has_first(names: Seq<Seq<char>>, name: Seq<char>, j: int)
    requires
        0 <= j < names.len(),
        names[j] == name,
    ensures
        exists|i: int| is_first_at(names, name, i),
    decreases j,
{
    if exists|k: int| 0 <= k < j && names[k] == name {
        let k = choose|k: int| 0 <= k < j && names[k] == name;
        lemma_has_first(names, name, k);
    } else {
        assert(is_first_at(names, name, j));
    }
}

impl ShaderLabel {
    /// A label with the given name.
    pub fn new(name: &str) -> (label: ShaderLabel)
        ensures
            label@ == name@,
    {
        ShaderLabel(name.to_owned())
    }

    /// Whether two labels carry the same name.
    pub fn same(&self, other: &ShaderLabel) -> (equal: bool)
        ensures
            equal == (self@ == other@),
    {
        self.0 == other.0
    }
}

/// Looks a label up in a list: the index of its first occurrence.
pub fn find_label(labels: &Vec<ShaderLabel>, wanted: &ShaderLabel) -> (found: Option<usize>)
    ensures
        match found {
            Some(i) => position(names_of(labels@), wanted@) == Some(i as int),
            None => position(names_of(labels@), wanted@).is_none(),
        },
{
    let ghost names = names_of(labels@);
    let mut i: usize = 0;
    while i < labels.len()
        invariant
            i <= labels.len(),
            names == names_of(labels@),
            forall|j: int| 0 <= j < i ==> names[j] != wanted@,
        decreases labels.len() - i,
    {
        if labels[i].same(wanted) {
            proof {
                assert(is_first_at(names, wanted@, i as int));
                lemma_position_at(names, wanted@, i as int);
            }
            return Some(i);
        }
        i += 1;
    }
    proof {
        lemma_position_none(names, wanted@);
    }
    None
}

/// Whether some name occurs twice in a list of labels.
pub fn contains_duplicate(labels: &Vec<ShaderLabel>) -> (twice: bool)
    ensures
        twice == has_duplicate(names_of(labels@)),
{
    let ghost names = names_of(labels@);
    let mut j: usize = 0;
    while j < labels.len()
        invariant
            j <= labels.len(),
            names == names_of(labels@),
            forall|a: int, b: int| 0 <= a < b < j ==> names[a] != names[b],
        decreases labels.len() - j,
    {
        let mut i: usize = 0;
        while i < j
            invariant
                i <= j < labels.len(),
                names == names_of(labels@),
                forall|a: int| 0 <= a < i ==> names[a] != names[j as int],
            decreases j - i,
        {
            if labels[i].same(&labels[j]) {
                assert(0 <= i < j < names.len() && names[i as int] == names[j as int]);
                return true;
            }
            i += 1;
        }
        j += 1;
    }
    false
}

} // verus!
