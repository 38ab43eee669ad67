//! Keeping track of which textures the passes so far have rendered into.

use vstd::prelude::*;
use crate::compile::{node_writes, CompiledPass};
use crate::descriptor::ScheduledPipelineDescription;
use crate::label::{has_duplicate, lemma_position_sound, names_of, position};
use crate::resolve::lemma_slot_of_own_name;

verus! {

/// `index` occurs among the first `k` of `indices`.
pub open spec fn among(indices: Seq<usize>, k: int, index: int) -> bool {
    exists|m: int| 0 <= m < k && m < indices.len() && #[trigger] indices[m] as int == index
}

/// Whether a resolved pass renders into the texture at `index`.
pub open spec fn pass_writes(pass: CompiledPass, index: int) -> bool {
    ||| (pass.targets matches Some(indices) && among(indices@, indices@.len() as int, index))
    ||| (pass.depth matches Some(t) && t as int == index)
}

impl ScheduledPipelineDescription {
    /// A resolved pass renders into a texture exactly where the pass it was
    /// resolved from names that texture as a target or as its depth texture.
    pub proof fn lemma_pass_writes(&self, i: int, pass: CompiledPass, t: int)
        requires
            0 <= i < self.shader_nodes@.len(),
            0 <= t < self.textures@.len(),
            !has_duplicate(self.texture_names()),
            self.pass_resolves(i, pass),
        ensures
            pass_writes(pass, t) == node_writes(self.shader_nodes@[i], self.texture_names()[t]),
    {
        let node = self.shader_nodes@[i];
        let names = self.texture_names();
        let name = names[t];
        lemma_slot_of_own_name(names, t);
        if let Some(ts) = node.targets {
            let indices = pass.targets->Some_0;
            let wanted = names_of(ts@);
            if among(indices@, indices@.len() as int, t) {
                let m = choose|m: int|
                    0 <= m < indices@.len() && #[trigger] indices@[m] as int == t;
                assert(position(names, wanted[m]) == Some(t));
                lemma_position_sound(names, wanted[m]);
                assert(wanted[m] == name);
                assert(wanted.contains(name));
            }
            if wanted.contains(name) {
                let m = choose|m: int| 0 <= m < wanted.len() && wanted[m] == name;
                assert(position(names, wanted[m]) == Some(indices@[m] as int));
                assert(indices@[m] as int == t);
                assert(among(indices@, indices@.len() as int, t));
            }
        }
        if let Some(d) = node.depth {
            let dt = pass.depth->Some_0;
            lemma_position_sound(names, d@);
        }
    }

    /// What has been written before pass `i + 1` is what had been written
    /// before pass `i`, and what pass `i` writes.
    pub proof fn lemma_written_step(&self, i: int, name: Seq<char>)
        requires
            0 <= i < self.shader_nodes@.len(),
        ensures
            self.written_before(i + 1, name) == (self.written_before(i, name) || node_writes(
                self.shader_nodes@[i],
                name,
            )),
    {
        if self.written_before(i + 1, name) {
            let j = choose|j: int|
                0 <= j < i + 1 && j < self.shader_nodes@.len() && node_writes(
                    #[trigger] self.shader_nodes@[j],
                    name,
                );
            if j < i {
                assert(self.written_before(i, name));
            }
        }
        if self.written_before(i, name) {
            let j = choose|j: int|
                0 <= j < i && j < self.shader_nodes@.len() && node_writes(
                    #[trigger] self.shader_nodes@[j],
                    name,
                );
            assert(0 <= j < i + 1 && node_writes(self.shader_nodes@[j], name));
        }
        if node_writes(self.shader_nodes@[i], name) {
            assert(0 <= i < i + 1 && node_writes(self.shader_nodes@[i], name));
        }
    }

    /// Records what pass `i` renders into.
    pub(crate) fn mark_written(&self, i: usize, pass: &CompiledPass, written: &mut Vec<bool>)
        requires
            i < self.shader_nodes@.len(),
            !has_duplicate(self.texture_names()),
            self.pass_resolves(i as int, *pass),
            self.written_tracks(i as int, old(written)@),
        ensures
            self.written_tracks(i as int + 1, final(written)@),
    {
        let ghost before = written@;
        let ghost names = self.texture_names();
        let ghost node = self.shader_nodes@[i as int];
        if let Some(indices) = &pass.targets {
            let mut k: usize = 0;
            while k < indices.len()
                invariant
                    k <= indices.len(),
                    i < self.shader_nodes@.len(),
                    node == self.shader_nodes@[i as int],
                    names == self.texture_names(),
                    pass.targets == Some(*indices),
                    self.pass_resolves(i as int, *pass),
                    written@.len() == before.len(),
                    before.len() == self.textures@.len(),
                    forall|t: int|
                        0 <= t < written@.len() ==> #[trigger] written@[t] == (before[t] || among(
                            indices@,
                            k as int,
                            t,
                        )),
                decreases indices.len() - k,
            {
                proof {
                    let ts = node.targets->Some_0;
                    let name = names_of(ts@)[k as int];
                    assert(position(names, name) == Some(indices@[k as int] as int));
                    lemma_position_sound(names, name);
                }
                let ghost prior = written@;
                written.set(indices[k], true);
                proof {
                    assert forall|t: int| 0 <= t < written@.len() implies #[trigger] written@[t]
                        == (before[t] || among(indices@, k as int + 1, t)) by {
                        if among(indices@, k as int + 1, t) {
                            let m = choose|m: int|
                                0 <= m < k as int + 1 && m < indices@.len()
                                    && #[trigger] indices@[m] as int == t;
                            if m < k {
                                assert(among(indices@, k as int, t));
                            }
                        }
                        if among(indices@, k as int, t) {
                            let m = choose|m: int|
                                0 <= m < k as int && m < indices@.len()
                                    && #[trigger] indices@[m] as int == t;
                            assert(0 <= m < k as int + 1 && indices@[m] as int == t);
                        }
                        if t == indices@[k as int] as int {
                            assert(0 <= k as int && (k as int) < k as int + 1 && indices@[k as int]
                                as int == t);
                        }
                        assert(prior[t] == (before[t] || among(indices@, k as int, t)));
                    }
                }
                k += 1;
            }
        }
        let ghost middle = written@;
        if let Some(t) = pass.depth {
            proof {
                lemma_position_sound(names, node.depth->Some_0@);
            }
            written.set(t, true);
        }
        proof {
            assert forall|t: int| 0 <= t < written@.len() implies #[trigger] written@[t]
                == self.written_before(i as int + 1, names[t]) by {
                self.lemma_pass_writes(i as int, *pass, t);
                self.lemma_written_step(i as int, names[t]);
                assert(before[t] == self.written_before(i as int, names[t]));
                if pass.targets is Some {
                    let indices = pass.targets->Some_0;
                    assert(middle[t] == (before[t] || among(
                        indices@,
                        indices@.len() as int,
                        t,
                    )));
                } else {
                    assert(middle[t] == before[t]);
                }
            }
        }
    }
}

} // verus!
