//! The description of the forward renderer compiles: its labels are known
//! and differ, and its layouts and formats agree.

use vstd::prelude::*;
use crate::compiled::CompiledPipeline;
use crate::def_render::{camera_entries, texture_entries};
use crate::descriptor::{ScheduledPipelineDescription, SurfaceContext};
use crate::feed::{lemma_uploaded_shape, payloads_fit};
use crate::label::{has_duplicate, is_first_at, lemma_position_at, names_of, position};
use crate::rebuild::LiveMesh;
use crate::resolve::{all_known, slot};
use crate::visual::{is_mesh_pass, lemma_forward_labels_differ};

verus! {

/// The description is that of the forward renderer for the given surface.
pub open spec fn is_forward(desc: ScheduledPipelineDescription, surface: SurfaceContext) -> bool {
    let pass = desc.shader_nodes@[0];
    &&& desc.shader_nodes@.len() == 1
    &&& is_mesh_pass(pass)
    &&& pass.shader.bg_layouts@.len() == 2
    &&& pass.shader.bg_layouts@[0]@ == texture_entries()
    &&& pass.shader.bg_layouts@[1]@ == camera_entries()
    &&& pass.shader.targets@.len() == 1
    &&& pass.shader.targets@[0].format == surface.format
    &&& desc.buffers@.len() == 1
    &&& desc.buffers@[0].label@ == "mesh-buffer"@
    &&& desc.buffers@[0].unique_bind_groups@.len() == 1
    &&& desc.buffers@[0].unique_bind_groups@[0]@ == "mesh-texture"@
    &&& desc.bind_groups@.len() == 2
    &&& desc.bind_groups@[0].label@ == "mesh-texture"@
    &&& desc.bind_groups@[0].layout@ == texture_entries()
    &&& desc.bind_groups@[0].declared_texture() is None
    &&& desc.bind_groups@[1].label@ == "mesh-camera"@
    &&& desc.bind_groups@[1].layout@ == camera_entries()
    &&& desc.bind_groups@[1].form is Uniform
    &&& desc.textures@.len() == 0
}

/// In the forward renderer no label occurs twice in its namespace, and each
/// label stands where it was declared.
pub proof fn lemma_forward_names(desc: ScheduledPipelineDescription, surface: SurfaceContext)
    requires
        is_forward(desc, surface),
    ensures
        desc.duplicate_namespace() is None,
        position(desc.buffer_names(), "mesh-buffer"@) == Some(0int),
        position(desc.bind_group_names(), "mesh-texture"@) == Some(0int),
        position(desc.bind_group_names(), "mesh-camera"@) == Some(1int),
{
    lemma_forward_labels_differ();
    let buffers = desc.buffer_names();
    let groups = desc.bind_group_names();
    assert(buffers[0] == "mesh-buffer"@);
    assert(groups[0] == "mesh-texture"@ && groups[1] == "mesh-camera"@);
    assert(!has_duplicate(buffers));
    assert(!has_duplicate(groups));
    assert(!has_duplicate(desc.texture_names()));
    assert(is_first_at(buffers, "mesh-buffer"@, 0));
    lemma_position_at(buffers, "mesh-buffer"@, 0);
    assert(is_first_at(groups, "mesh-texture"@, 0));
    lemma_position_at(groups, "mesh-texture"@, 0);
    assert(is_first_at(groups, "mesh-camera"@, 1));
    lemma_position_at(groups, "mesh-camera"@, 1);
}

/// The description of the forward renderer compiles.
pub proof fn lemma_forward_compiles(desc: ScheduledPipelineDescription, surface: SurfaceContext)
    requires
        is_forward(desc, surface),
    ensures
        desc.verdict(surface) is None,
{
    lemma_forward_names(desc, surface);
    let node = desc.shader_nodes@[0];
    let groups = desc.bind_group_names();
    let wanted = names_of(node.bind_groups@);
    assert(wanted[0] == "mesh-texture"@ && wanted[1] == "mesh-camera"@);
    assert(all_known(groups, wanted));
    assert(slot(groups, node.bind_groups@[0]@) == 0);
    assert(slot(groups, node.bind_groups@[1]@) == 1);
    assert(desc.layouts_agree(node)) by {
        assert forall|k: int| 0 <= k < node.bind_groups@.len() implies desc.bind_groups@[slot(
            groups,
            #[trigger] node.bind_groups@[k]@,
        )].layout@ == node.shader.bg_layouts@[k]@ by {
            if k == 0 {
            } else {
                assert(k == 1);
            }
        }
    }
    assert(desc.attachments_declared(node));
    assert(desc.formats_agree(node, surface));
    assert(desc.reads_follow_writes(0)) by {
        assert forall|k: int| 0 <= k < node.bind_groups@.len() implies (desc.bind_groups@[slot(
            groups,
            #[trigger] node.bind_groups@[k]@,
        )].declared_texture() is None) by {
            if k == 0 {
            } else {
                assert(k == 1);
            }
        }
    }
    assert(desc.node_fault(surface, 0) is None);
    assert(desc.sources_known()) by {
        assert forall|g: int| 0 <= g < desc.bind_groups@.len() implies (
        #[trigger] desc.bind_groups@[g].declared_texture() is None) by {
            if g == 0 {
            } else {
                assert(g == 1);
            }
        }
    }
    assert(desc.unique_bind_groups_known()) by {
        let listed = names_of(desc.buffers@[0].unique_bind_groups@);
        assert(listed[0] == "mesh-texture"@);
        assert(all_known(groups, listed));
    }
    assert(desc.first_fault(surface, 0) is None);
    assert(desc.first_fault(surface, 1) is None);
}

/// The pass of the compiled forward renderer: it draws buffer group 0, reads
/// bind groups 0 and 1, and writes to the surface.
pub open spec fn forward_passes(compiled: CompiledPipeline) -> bool {
    let pass = compiled.passes@[0];
    &&& compiled.passes@.len() == 1
    &&& pass.buffer_group == 0
    &&& pass.bind_groups@ == seq![0usize, 1usize]
    &&& pass.targets is None
    &&& pass.depth is None
}

/// A pipeline compiled from the description of the forward renderer has the
/// pass of the forward renderer.
pub proof fn lemma_forward_passes(compiled: CompiledPipeline, surface: SurfaceContext)
    requires
        compiled.wf(),
        is_forward(compiled.source, surface),
    ensures
        forward_passes(compiled),
{
    let desc = compiled.source;
    lemma_forward_names(desc, surface);
    let pass = compiled.passes@[0];
    assert(desc.pass_resolves(0, pass));
    let wanted = names_of(desc.shader_nodes@[0].bind_groups@);
    assert(wanted[0] == "mesh-texture"@ && wanted[1] == "mesh-camera"@);
    assert(pass.bind_groups@ =~= seq![0usize, 1usize]);
}

/// Feeding the forward renderer leaves it the forward renderer.
pub proof fn lemma_fed_forward(
    after: CompiledPipeline,
    before: CompiledPipeline,
    surface: SurfaceContext,
    buffer_group: int,
    uniforms: Seq<usize>,
    live: Seq<LiveMesh>,
    payloads: Seq<Vec<u8>>,
)
    requires
        is_forward(before.source, surface),
        before.feedable(buffer_group, uniforms),
        payloads_fit(before.source.bind_groups@, uniforms, payloads),
        after.fed_from(before, buffer_group, uniforms, live, payloads),
    ensures
        is_forward(after.source, surface),
{
    lemma_uploaded_shape(before.source.bind_groups@, uniforms, payloads, payloads.len() as int);
    let groups = after.source.bind_groups@;
    assert(groups[0].label == before.source.bind_groups@[0].label);
    assert(groups[1].label == before.source.bind_groups@[1].label);
}

} // verus!
