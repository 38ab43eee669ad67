//! Feeding live data into a compiled pipeline: a buffer group is replaced
//! wholesale, and uniform bind groups get new contents. The passes are not
//! touched.

use vstd::prelude::*;
use crate::compiled::CompiledPipeline;
use crate::descriptor::{BufferGroup, MeshData, ScheduledBindGroup, ScheduledBindGroupType};
use crate::error::PipelineError;
use crate::rebuild::{rebuilt, LiveMesh, RebuildFn};

verus! {

/// Each slot names a bind group that exists and holds a uniform block.
pub open spec fn slots_uniform(groups: Seq<ScheduledBindGroup>, uniforms: Seq<usize>) -> bool {
    forall|k: int|
        0 <= k < uniforms.len() ==> {
            &&& (#[trigger] uniforms[k] as int) < groups.len()
            &&& groups[uniforms[k] as int].form is Uniform
        }
}

/// There is one payload for each slot, as long as the block that it is
/// written to.
pub open spec fn payloads_fit(
    groups: Seq<ScheduledBindGroup>,
    uniforms: Seq<usize>,
    payloads: Seq<Vec<u8>>,
) -> bool {
    &&& payloads.len() == uniforms.len()
    &&& forall|k: int|
        0 <= k < uniforms.len() ==> (groups[#[trigger] uniforms[k] as int].form matches ScheduledBindGroupType::Uniform {
            contents,
        } ==> payloads[k]@.len() == contents@.len())
}

/// A bind group with its uniform block replaced.
pub open spec fn with_contents(group: ScheduledBindGroup, contents: Vec<u8>) -> ScheduledBindGroup {
    ScheduledBindGroup {
        label: group.label,
        layout: group.layout,
        form: ScheduledBindGroupType::Uniform { contents },
    }
}

/// The bind groups after the first `n` payloads have been written, each to
/// the bind group of its slot, in order.
pub open spec fn uploaded(
    groups: Seq<ScheduledBindGroup>,
    uniforms: Seq<usize>,
    payloads: Seq<Vec<u8>>,
    n: int,
) -> Seq<ScheduledBindGroup>
    decreases n,
{
    if n <= 0 {
        groups
    } else {
        let before = uploaded(groups, uniforms, payloads, n - 1);
        let g = uniforms[n - 1] as int;
        before.update(g, with_contents(before[g], payloads[n - 1]))
    }
}

/// Writing payloads changes contents only: the number of bind groups, their
/// labels, their layouts, what they sample and the lengths of their uniform
/// blocks stay.
pub proof fn lemma_uploaded_shape(
    groups: Seq<ScheduledBindGroup>,
    uniforms: Seq<usize>,
    payloads: Seq<Vec<u8>>,
    n: int,
)
    requires
        0 <= n <= uniforms.len(),
        slots_uniform(groups, uniforms),
        payloads_fit(groups, uniforms, payloads),
    ensures
        uploaded(groups, uniforms, payloads, n).len() == groups.len(),
        forall|g: int|
            0 <= g < groups.len() ==> {
                let after = #[trigger] uploaded(groups, uniforms, payloads, n)[g];
                &&& after.label == groups[g].label
                &&& after.layout == groups[g].layout
                &&& after.declared_texture() == groups[g].declared_texture()
                &&& (after.form is Uniform) == (groups[g].form is Uniform)
                &&& (after.form matches ScheduledBindGroupType::Uniform { contents: new }
                    ==> (groups[g].form matches ScheduledBindGroupType::Uniform { contents: old }
                    && new@.len() == old@.len()))
            },
    decreases n,
{
    if n > 0 {
        lemma_uploaded_shape(groups, uniforms, payloads, n - 1);
        let before = uploaded(groups, uniforms, payloads, n - 1);
        let slot = uniforms[n - 1] as int;
        assert(slot < groups.len() && groups[slot].form is Uniform);
        let after = uploaded(groups, uniforms, payloads, n);
        assert(after == before.update(slot, with_contents(before[slot], payloads[n - 1])));
        assert forall|g: int| 0 <= g < groups.len() implies {
            let a = #[trigger] after[g];
            &&& a.label == groups[g].label
            &&& a.layout == groups[g].layout
            &&& a.declared_texture() == groups[g].declared_texture()
            &&& (a.form is Uniform) == (groups[g].form is Uniform)
            &&& (a.form matches ScheduledBindGroupType::Uniform { contents: new }
                ==> (groups[g].form matches ScheduledBindGroupType::Uniform { contents: old }
                && new@.len() == old@.len()))
        } by {
            let b = before[g];
            if g == slot {
                assert(after[g] == with_contents(before[slot], payloads[n - 1]));
            } else {
                assert(after[g] == before[g]);
            }
        }
    }
}

/// Whether there is one payload for each slot, as long as the block that it
/// is written to.
pub(crate) fn payloads_match(
    groups: &Vec<ScheduledBindGroup>,
    uniforms: &Vec<usize>,
    payloads: &Vec<Vec<u8>>,
) -> (fit: bool)
    requires
        slots_uniform(groups@, uniforms@),
    ensures
        fit == payloads_fit(groups@, uniforms@, payloads@),
{
    if payloads.len() != uniforms.len() {
        return false;
    }
    let mut k: usize = 0;
    while k < uniforms.len()
        invariant
            k <= uniforms.len(),
            payloads@.len() == uniforms@.len(),
            slots_uniform(groups@, uniforms@),
            forall|m: int|
                0 <= m < k ==> (groups@[#[trigger] uniforms@[m] as int].form matches ScheduledBindGroupType::Uniform {
                    contents,
                } ==> payloads@[m]@.len() == contents@.len()),
        decreases uniforms.len() - k,
    {
        assert((uniforms@[k as int] as int) < groups@.len());
        match &groups[uniforms[k]].form {
            ScheduledBindGroupType::Uniform { contents } => {
                if payloads[k].len() != contents.len() {
                    return false;
                }
            },
            _ => {},
        }
        k += 1;
    }
    true
}

/// Writes each payload to the bind group of its slot, in order.
pub(crate) fn upload_all(
    groups: &mut Vec<ScheduledBindGroup>,
    uniforms: &Vec<usize>,
    payloads: Vec<Vec<u8>>,
)
    requires
        slots_uniform(old(groups)@, uniforms@),
        payloads_fit(old(groups)@, uniforms@, payloads@),
    ensures
        final(groups)@ == uploaded(old(groups)@, uniforms@, payloads@, payloads@.len() as int),
{
    let ghost start = groups@;
    let mut next: usize = 0;
    for payload in iter: payloads.into_iter()
        invariant
            iter.seq() == payloads@,
            next == iter.index(),
            payloads@.len() == uniforms@.len(),
            slots_uniform(start, uniforms@),
            payloads_fit(start, uniforms@, payloads@),
            groups@ == uploaded(start, uniforms@, payloads@, iter.index() as int),
    {
        let ghost k = iter.index() as int;
        assert(k < payloads@.len());
        assert(payload == payloads@[k]);
        assert(uniforms@.len() == uniforms.len());
        proof {
            lemma_uploaded_shape(start, uniforms@, payloads@, k);
            assert((uniforms@[k] as int) < start.len());
        }
        let g = uniforms[next];
        let ghost before = groups@;
        let mut group = groups.remove(g);
        group.form = ScheduledBindGroupType::Uniform { contents: payload };
        groups.insert(g, group);
        assert(groups@ =~= before.update(g as int, with_contents(before[g as int], payload)));
        next += 1;
    }
}

/// Replaces the objects of one buffer group.
pub(crate) fn replace_objects(buffers: &mut Vec<BufferGroup>, b: usize, objects: Vec<MeshData>)
    requires
        b < old(buffers)@.len(),
    ensures
        final(buffers)@.len() == old(buffers)@.len(),
        forall|c: int|
            0 <= c < old(buffers)@.len() && c != b ==> final(buffers)@[c] == old(buffers)@[c],
        final(buffers)@[b as int].label == old(buffers)@[b as int].label,
        final(buffers)@[b as int].unique_bind_groups == old(buffers)@[b as int].unique_bind_groups,
        final(buffers)@[b as int].objects == objects,
{
    let mut group = buffers.remove(b);
    group.objects = objects;
    buffers.insert(b, group);
}

impl CompiledPipeline {
    /// The buffer group and the uniform slots exist in this pipeline.
    pub open spec fn feedable(&self, buffer_group: int, uniforms: Seq<usize>) -> bool {
        &&& 0 <= buffer_group < self.source.buffers@.len()
        &&& slots_uniform(self.source.bind_groups@, uniforms)
    }

    /// The live data and the payloads fit what they are meant for.
    pub open spec fn takes(
        &self,
        uniforms: Seq<usize>,
        rebuild: RebuildFn,
        live: Seq<LiveMesh>,
        payloads: Seq<Vec<u8>>,
    ) -> bool {
        &&& rebuild.accepts(live)
        &&& payloads_fit(self.source.bind_groups@, uniforms, payloads)
    }

    /// This pipeline is `before` with the objects of one buffer group
    /// replaced by those of the live data, and the payloads written to the
    /// uniform slots. Passes, textures and every other buffer group are as
    /// they were.
    pub open spec fn fed_from(
        &self,
        before: CompiledPipeline,
        buffer_group: int,
        uniforms: Seq<usize>,
        live: Seq<LiveMesh>,
        payloads: Seq<Vec<u8>>,
    ) -> bool {
        &&& self.passes == before.passes
        &&& self.sampled == before.sampled
        &&& self.usages == before.usages
        &&& self.source.shader_nodes == before.source.shader_nodes
        &&& self.source.textures == before.source.textures
        &&& self.source.bind_groups@ == uploaded(
            before.source.bind_groups@,
            uniforms,
            payloads,
            payloads.len() as int,
        )
        &&& self.source.buffers@.len() == before.source.buffers@.len()
        &&& forall|c: int|
            0 <= c < before.source.buffers@.len() && c != buffer_group
                ==> #[trigger] self.source.buffers@[c] == before.source.buffers@[c]
        &&& self.source.buffers@[buffer_group].label == before.source.buffers@[buffer_group].label
        &&& self.source.buffers@[buffer_group].unique_bind_groups
            == before.source.buffers@[buffer_group].unique_bind_groups
        &&& self.source.buffers@[buffer_group].objects@ == rebuilt(live)
    }

    /// Feeding keeps the tables in agreement with the description.
    pub proof fn lemma_fed_wf(
        &self,
        before: CompiledPipeline,
        buffer_group: int,
        uniforms: Seq<usize>,
        live: Seq<LiveMesh>,
        payloads: Seq<Vec<u8>>,
    )
        requires
            before.wf(),
            before.feedable(buffer_group, uniforms),
            payloads_fit(before.source.bind_groups@, uniforms, payloads),
            self.fed_from(before, buffer_group, uniforms, live, payloads),
        ensures
            self.wf(),
            self.source.buffer_names() == before.source.buffer_names(),
            self.source.bind_group_names() == before.source.bind_group_names(),
            self.source.texture_names() == before.source.texture_names(),
            self.source.bind_groups@.len() == before.source.bind_groups@.len(),
            forall|u: Seq<usize>|
                slots_uniform(before.source.bind_groups@, u) ==> slots_uniform(
                    self.source.bind_groups@,
                    u,
                ),
    {
        lemma_uploaded_shape(
            before.source.bind_groups@,
            uniforms,
            payloads,
            payloads.len() as int,
        );
        assert(self.source.buffer_names() =~= before.source.buffer_names());
        assert(self.source.bind_group_names() =~= before.source.bind_group_names());
        assert(self.source.texture_names() =~= before.source.texture_names());
        assert forall|i: int| 0 <= i < self.passes@.len() implies self.source.pass_resolves(
            i,
            #[trigger] self.passes@[i],
        ) by {
            assert(before.source.pass_resolves(i, before.passes@[i]));
        }
        assert forall|g: int| 0 <= g < self.sampled@.len() implies match #[trigger] self.source.bind_groups@[g].declared_texture() {
            Some(name) => self.sampled@[g] matches Some(t) && crate::label::position(
                self.source.texture_names(),
                name,
            ) == Some(t as int),
            None => self.sampled@[g] is None,
        } by {
            assert(self.source.bind_groups@[g].declared_texture()
                == before.source.bind_groups@[g].declared_texture());
        }
        assert forall|u: Seq<usize>|
            slots_uniform(before.source.bind_groups@, u) implies slots_uniform(
            self.source.bind_groups@,
            u,
        ) by {
            assert forall|k: int| 0 <= k < u.len() implies {
                &&& (#[trigger] u[k] as int) < self.source.bind_groups@.len()
                &&& self.source.bind_groups@[u[k] as int].form is Uniform
            } by {
                let g = u[k] as int;
                assert(g < before.source.bind_groups@.len());
                assert((self.source.bind_groups@[g].form is Uniform) == (
                before.source.bind_groups@[g].form is Uniform));
            }
        }
    }

    /// Replaces the objects of a buffer group by those of the live data and
    /// writes the payloads to the uniform slots. Where the data does not fit,
    /// nothing is changed.
    pub fn feed(
        &mut self,
        buffer_group: usize,
        uniforms: &Vec<usize>,
        rebuild: &RebuildFn,
        live: Vec<LiveMesh>,
        payloads: Vec<Vec<u8>>,
    ) -> (outcome: Result<(), PipelineError>)
        requires
            old(self).wf(),
            old(self).feedable(buffer_group as int, uniforms@),
        ensures
            match outcome {
                Ok(_) => {
                    &&& old(self).takes(uniforms@, *rebuild, live@, payloads@)
                    &&& final(self).fed_from(
                        *old(self),
                        buffer_group as int,
                        uniforms@,
                        live@,
                        payloads@,
                    )
                    &&& final(self).wf()
                },
                Err(e) => {
                    &&& e == PipelineError::LayoutMismatch
                    &&& !old(self).takes(uniforms@, *rebuild, live@, payloads@)
                    &&& *final(self) == *old(self)
                },
            },
    {
        if !payloads_match(&self.source.bind_groups, uniforms, &payloads) {
            return Err(PipelineError::LayoutMismatch);
        }
        let objects = match rebuild.rebuild(live) {
            Ok(objects) => objects,
            Err(e) => {
                return Err(e);
            },
        };
        replace_objects(&mut self.source.buffers, buffer_group, objects);
        upload_all(&mut self.source.bind_groups, uniforms, payloads);
        proof {
            self.lemma_fed_wf(*old(self), buffer_group as int, uniforms@, live@, payloads@);
        }
        Ok(())
    }
}

} // verus!
