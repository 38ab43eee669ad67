//! What holds of every pipeline: statements that relate the functions of the
//! library to one another.

use vstd::prelude::*;
use crate::compile::node_writes;
use crate::compiled::CompiledPipeline;
use crate::descriptor::{ScheduledBindGroup, ScheduledPipelineDescription, SurfaceContext};
use crate::dynamic::{bound_at, is_bound, one_each, registered_with, DynamicBinding};
use crate::error::PipelineError;
use crate::feed::{payloads_fit, slots_uniform, uploaded, with_contents};
use crate::label::{lemma_position_sound, names_of, position};
use crate::rebuild::{rebuilt, LiveMesh, RebuildFn};
use crate::resolve::slot;

verus! {

/// A compiled pipeline has one pass for each declared pass, and pass `i`
/// draws the buffer group and reads the bind groups that declared pass `i`
/// names, binding by binding.
pub proof fn lemma_passes_keep_order(compiled: CompiledPipeline, i: int)
    requires
        compiled.wf(),
        0 <= i < compiled.source.shader_nodes@.len(),
    ensures
        compiled.passes@.len() == compiled.source.shader_nodes@.len(),
        (compiled.passes@[i].buffer_group as int) < compiled.source.buffers@.len(),
        compiled.source.buffers@[compiled.passes@[i].buffer_group as int].label@
            == compiled.source.shader_nodes@[i].buffer_group@,
        compiled.passes@[i].bind_groups@.len()
            == compiled.source.shader_nodes@[i].bind_groups@.len(),
        forall|k: int|
            0 <= k < compiled.passes@[i].bind_groups@.len() ==> {
                &&& (#[trigger] compiled.passes@[i].bind_groups@[k] as int)
                    < compiled.source.bind_groups@.len()
                &&& compiled.source.bind_groups@[compiled.passes@[i].bind_groups@[k] as int].label@
                    == compiled.source.shader_nodes@[i].bind_groups@[k]@
            },
{
    let source = compiled.source;
    let node = source.shader_nodes@[i];
    let pass = compiled.passes@[i];
    assert(source.pass_resolves(i, pass));
    lemma_position_sound(source.buffer_names(), node.buffer_group@);
    assert forall|k: int| 0 <= k < pass.bind_groups@.len() implies {
        &&& (#[trigger] pass.bind_groups@[k] as int) < source.bind_groups@.len()
        &&& source.bind_groups@[pass.bind_groups@[k] as int].label@ == node.bind_groups@[k]@
    } by {
        let name = names_of(node.bind_groups@)[k];
        assert(position(source.bind_group_names(), name) == Some(pass.bind_groups@[k] as int));
        lemma_position_sound(source.bind_group_names(), name);
    }
}

/// A description in which a label occurs twice in one namespace is turned
/// down for that reason, whatever else it holds.
pub proof fn lemma_duplicate_rejected(desc: ScheduledPipelineDescription, surface: SurfaceContext)
    requires
        desc.duplicate_namespace() is Some,
    ensures
        desc.verdict(surface) == Some(
            PipelineError::DuplicateLabel(desc.duplicate_namespace()->Some_0),
        ),
{
}

impl ScheduledPipelineDescription {
    /// Where no pass among the first `n` is faulty, none of them is.
    pub proof fn lemma_no_fault_each(&self, surface: SurfaceContext, n: int, i: int)
        requires
            0 <= i < n,
            self.first_fault(surface, n) is None,
        ensures
            self.node_fault(surface, i) is None,
        decreases n,
    {
        if i < n - 1 {
            self.lemma_no_fault_each(surface, n - 1, i);
        }
    }

    /// Where a pass among the first `n` is faulty, there is a first fault.
    pub proof fn lemma_fault_found(&self, surface: SurfaceContext, n: int, i: int)
        requires
            0 <= i < n,
            self.node_fault(surface, i) is Some,
        ensures
            self.first_fault(surface, n) is Some,
        decreases n,
    {
        if i < n - 1 {
            self.lemma_fault_found(surface, n - 1, i);
        }
    }

    /// Pass `j` samples, at binding `k`, the declared attachment of the
    /// given name.
    pub open spec fn samples_attachment(&self, j: int, k: int, name: Seq<char>) -> bool {
        let node = self.shader_nodes@[j];
        &&& 0 <= j < self.shader_nodes@.len()
        &&& 0 <= k < node.bind_groups@.len()
        &&& self.bind_groups@[slot(
            self.bind_group_names(),
            node.bind_groups@[k]@,
        )].declared_texture() == Some(name)
        &&& self.textures@[slot(self.texture_names(), name)].kind.is_attachment()
    }
}

/// In a description that compiles, an attachment that pass `j` samples is
/// written by a pass that stands before `j`.
pub proof fn lemma_write_precedes_read(
    desc: ScheduledPipelineDescription,
    surface: SurfaceContext,
    j: int,
    k: int,
    name: Seq<char>,
)
    requires
        desc.verdict(surface) is None,
        desc.samples_attachment(j, k, name),
    ensures
        exists|i: int|
            0 <= i < j && node_writes(#[trigger] desc.shader_nodes@[i], name),
{
    desc.lemma_no_fault_each(surface, desc.shader_nodes@.len() as int, j);
    assert(desc.reads_follow_writes(j));
    let node = desc.shader_nodes@[j];
    assert(desc.bind_groups@[slot(desc.bind_group_names(), node.bind_groups@[k]@)].declared_texture()
        == Some(name));
    assert(desc.written_before(j, name));
}

/// A description in which pass `j` samples an attachment that no pass
/// before `j` writes does not compile.
pub proof fn lemma_read_before_write_rejected(
    desc: ScheduledPipelineDescription,
    surface: SurfaceContext,
    j: int,
    k: int,
    name: Seq<char>,
)
    requires
        desc.samples_attachment(j, k, name),
        forall|i: int| 0 <= i < j ==> !node_writes(#[trigger] desc.shader_nodes@[i], name),
    ensures
        desc.verdict(surface) is Some,
{
    if desc.verdict(surface) is None {
        lemma_write_precedes_read(desc, surface, j, k, name);
    }
}

/// Registering keeps one registration for each component type: the one
/// just registered, exactly once.
pub proof fn lemma_register_replaces(bindings: Seq<DynamicBinding>, binding: DynamicBinding)
    requires
        one_each(bindings),
    ensures
        one_each(registered_with(bindings, binding)),
        is_bound(registered_with(bindings, binding), binding.component),
        forall|i: int|
            bound_at(registered_with(bindings, binding), binding.component, i)
                ==> registered_with(bindings, binding)[i] == binding,
        registered_with(bindings, binding).len() == if is_bound(bindings, binding.component) {
            bindings.len()
        } else {
            bindings.len() + 1
        },
{
    let after = registered_with(bindings, binding);
    if is_bound(bindings, binding.component) {
        let at = choose|i: int| bound_at(bindings, binding.component, i);
        assert(bound_at(bindings, binding.component, at));
        assert(after == bindings.update(at, binding));
        assert(bound_at(after, binding.component, at));
        assert forall|a: int, b: int| 0 <= a < b < after.len() implies after[a].component
            != after[b].component by {
            assert(after[a].component == bindings[a].component);
            assert(after[b].component == bindings[b].component);
        }
        assert forall|i: int| bound_at(after, binding.component, i) implies after[i]
            == binding by {
            if i != at {
                assert(after[i] == bindings[i]);
                if i < at {
                    assert(bindings[i].component != bindings[at].component);
                } else {
                    assert(bindings[at].component != bindings[i].component);
                }
            }
        }
    } else {
        assert(after == bindings.push(binding));
        assert(bound_at(after, binding.component, bindings.len() as int));
        assert forall|a: int, b: int| 0 <= a < b < after.len() implies after[a].component
            != after[b].component by {
            if b == bindings.len() {
                assert(!bound_at(bindings, binding.component, a));
            }
        }
        assert forall|i: int| bound_at(after, binding.component, i) implies after[i]
            == binding by {
            if i < bindings.len() {
                assert(bound_at(bindings, binding.component, i));
            }
        }
    }
}

/// Registering a component type a second time adds no registration: the
/// second takes the place of the first.
pub proof fn lemma_register_twice(
    bindings: Seq<DynamicBinding>,
    first: DynamicBinding,
    second: DynamicBinding,
)
    requires
        one_each(bindings),
        first.component == second.component,
    ensures
        registered_with(registered_with(bindings, first), second) == registered_with(
            bindings,
            second,
        ),
{
    let once = registered_with(bindings, first);
    lemma_register_replaces(bindings, first);
    let at = choose|i: int| bound_at(once, second.component, i);
    assert(bound_at(once, second.component, at));
    assert(once[at] == first);
    if is_bound(bindings, first.component) {
        let was = choose|i: int| bound_at(bindings, first.component, i);
        assert(bound_at(bindings, first.component, was));
        assert(bound_at(once, first.component, was));
        if was < at {
            assert(once[was].component != once[at].component);
        } else if at < was {
            assert(once[at].component != once[was].component);
        }
        assert(once.update(at, second) =~= bindings.update(was, second));
    } else {
        if at < bindings.len() {
            assert(bound_at(bindings, first.component, at));
        }
        assert(once.update(at, second) =~= bindings.push(second));
    }
}

/// No live instance at all fits every rebuild function with a stride, and
/// gives a buffer group that draws nothing.
pub proof fn lemma_empty_query_draws_nothing(rebuild: RebuildFn)
    requires
        rebuild.vertex_stride > 0,
    ensures
        rebuild.accepts(Seq::<LiveMesh>::empty()),
        rebuilt(Seq::<LiveMesh>::empty()).len() == 0,
{
}

/// The last of the first `n` slots that names bind group `g`; none: -1.
pub open spec fn last_write(uniforms: Seq<usize>, n: int, g: int) -> int
    decreases n,
{
    if n <= 0 {
        -1
    } else if uniforms[n - 1] as int == g {
        n - 1
    } else {
        last_write(uniforms, n - 1, g)
    }
}

/// After the first `n` payloads have been written, a bind group holds the
/// payload of the last slot that names it, and is untouched where none does.
pub proof fn lemma_uploaded_at(
    groups: Seq<ScheduledBindGroup>,
    uniforms: Seq<usize>,
    payloads: Seq<Vec<u8>>,
    n: int,
    g: int,
)
    requires
        0 <= n <= uniforms.len(),
        0 <= g < groups.len(),
        slots_uniform(groups, uniforms),
    ensures
        uploaded(groups, uniforms, payloads, n).len() == groups.len(),
        -1 <= last_write(uniforms, n, g) < n,
        uploaded(groups, uniforms, payloads, n)[g] == if last_write(uniforms, n, g) >= 0 {
            with_contents(groups[g], payloads[last_write(uniforms, n, g)])
        } else {
            groups[g]
        },
    decreases n,
{
    if n > 0 {
        lemma_uploaded_at(groups, uniforms, payloads, n - 1, g);
        let at = uniforms[n - 1] as int;
        assert(at < groups.len());
        lemma_uploaded_at(groups, uniforms, payloads, n - 1, at);
    }
}

/// Writing the same payloads a second time changes nothing.
pub proof fn lemma_upload_twice(
    groups: Seq<ScheduledBindGroup>,
    uniforms: Seq<usize>,
    payloads: Seq<Vec<u8>>,
)
    requires
        slots_uniform(groups, uniforms),
        payloads.len() == uniforms.len(),
    ensures
        uploaded(
            uploaded(groups, uniforms, payloads, payloads.len() as int),
            uniforms,
            payloads,
            payloads.len() as int,
        ) == uploaded(groups, uniforms, payloads, payloads.len() as int),
{
    let n = payloads.len() as int;
    let once = uploaded(groups, uniforms, payloads, n);
    if groups.len() > 0 {
        lemma_uploaded_at(groups, uniforms, payloads, n, 0);
    } else {
        assert(n == 0) by {
            if n > 0 {
                assert((uniforms[0] as int) < groups.len());
            }
        }
    }
    assert(once.len() == groups.len());
    assert forall|k: int| 0 <= k < uniforms.len() implies {
        &&& (#[trigger] uniforms[k] as int) < once.len()
        &&& once[uniforms[k] as int].form is Uniform
    } by {
        let g = uniforms[k] as int;
        assert(g < groups.len());
        lemma_uploaded_at(groups, uniforms, payloads, n, g);
    }
    let twice = uploaded(once, uniforms, payloads, n);
    assert forall|g: int| 0 <= g < groups.len() implies twice[g] == once[g] by {
        lemma_uploaded_at(groups, uniforms, payloads, n, g);
        lemma_uploaded_at(once, uniforms, payloads, n, g);
    }
    if groups.len() > 0 {
        lemma_uploaded_at(once, uniforms, payloads, n, 0);
    }
    assert(twice =~= once);
}

/// Feeding the same live data and payloads twice in a row gives the same
/// contents as feeding them once: each object of the buffer group holds the
/// same vertices and indices, and every bind group is the same.
pub proof fn lemma_feed_twice(
    start: CompiledPipeline,
    once: CompiledPipeline,
    twice: CompiledPipeline,
    buffer_group: int,
    uniforms: Seq<usize>,
    live: Seq<LiveMesh>,
    payloads: Seq<Vec<u8>>,
)
    requires
        start.feedable(buffer_group, uniforms),
        payloads_fit(start.source.bind_groups@, uniforms, payloads),
        once.fed_from(start, buffer_group, uniforms, live, payloads),
        twice.fed_from(once, buffer_group, uniforms, live, payloads),
    ensures
        twice.source.buffers@[buffer_group].objects@ == once.source.buffers@[buffer_group].objects@,
        twice.source.bind_groups@ == once.source.bind_groups@,
        twice.passes == once.passes,
{
    lemma_upload_twice(start.source.bind_groups@, uniforms, payloads);
}

} // verus!
