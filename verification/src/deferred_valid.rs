//! The description of the deferred renderer compiles: its labels are known
//! and differ, its layouts and formats agree, and the G-buffer is written
//! before it is sampled.

use vstd::prelude::*;
use crate::compile::node_writes;
use crate::compiled::CompiledPipeline;
use crate::def_render::{
    camera_entries, is_composite_pass, is_g_pass, lemma_labels_differ, render_texture_entries,
    texture_entries,
};
use crate::descriptor::{
    ScheduledPipelineDescription, SurfaceContext, DEPTH_FORMAT, RENDER_TARGET_FORMAT,
};
use crate::feed::{lemma_uploaded_shape, payloads_fit};
use crate::label::{has_duplicate, is_first_at, lemma_position_at, names_of, position};
use crate::rebuild::LiveMesh;
use crate::resolve::{all_known, slot};

verus! {

/// The description is that of the deferred renderer for the given surface.
pub open spec fn is_deferred(desc: ScheduledPipelineDescription, surface: SurfaceContext) -> bool {
    let g_pass = desc.shader_nodes@[0];
    let composite = desc.shader_nodes@[1];
    &&& desc.shader_nodes@.len() == 2
    &&& is_g_pass(g_pass)
    &&& g_pass.shader.bg_layouts@.len() == 2
    &&& g_pass.shader.bg_layouts@[0]@ == camera_entries()
    &&& g_pass.shader.bg_layouts@[1]@ == texture_entries()
    &&& g_pass.shader.targets@.len() == 3
    &&& g_pass.shader.targets@[0].format == RENDER_TARGET_FORMAT
    &&& g_pass.shader.targets@[1].format == RENDER_TARGET_FORMAT
    &&& g_pass.shader.targets@[2].format == RENDER_TARGET_FORMAT
    &&& is_composite_pass(composite)
    &&& composite.shader.bg_layouts@.len() == 3
    &&& composite.shader.bg_layouts@[0]@ == render_texture_entries()
    &&& composite.shader.bg_layouts@[1]@ == render_texture_entries()
    &&& composite.shader.bg_layouts@[2]@ == render_texture_entries()
    &&& composite.shader.targets@.len() == 1
    &&& composite.shader.targets@[0].format == surface.format
    &&& desc.buffers@.len() == 2
    &&& desc.buffers@[0].label@ == "mesh-buffer"@
    &&& desc.buffers@[0].unique_bind_groups@.len() == 0
    &&& desc.buffers@[1].label@ == "screen-quad-buffer"@
    &&& desc.buffers@[1].unique_bind_groups@.len() == 0
    &&& desc.bind_groups@.len() == 5
    &&& desc.bind_groups@[0].label@ == "camera-uniform"@
    &&& desc.bind_groups@[0].layout@ == camera_entries()
    &&& desc.bind_groups@[0].form is Uniform
    &&& desc.bind_groups@[1].label@ == "texture-buffer"@
    &&& desc.bind_groups@[1].layout@ == texture_entries()
    &&& desc.bind_groups@[1].declared_texture() is None
    &&& desc.bind_groups@[2].label@ == "g-normal-buffer"@
    &&& desc.bind_groups@[2].layout@ == render_texture_entries()
    &&& desc.bind_groups@[2].declared_texture() == Some("g-normal-buffer"@)
    &&& desc.bind_groups@[3].label@ == "g-albedo-buffer"@
    &&& desc.bind_groups@[3].layout@ == render_texture_entries()
    &&& desc.bind_groups@[3].declared_texture() == Some("g-albedo-buffer"@)
    &&& desc.bind_groups@[4].label@ == "g-position-buffer"@
    &&& desc.bind_groups@[4].layout@ == render_texture_entries()
    &&& desc.bind_groups@[4].declared_texture() == Some("g-position-buffer"@)
    &&& desc.textures@.len() == 4
    &&& desc.textures@[0].label@ == "g-depth-buffer"@
    &&& desc.textures@[0].kind is DepthAttachment
    &&& desc.textures@[0].format == DEPTH_FORMAT
    &&& desc.textures@[1].label@ == "g-normal-buffer"@
    &&& desc.textures@[1].kind is RenderTarget
    &&& desc.textures@[1].format == RENDER_TARGET_FORMAT
    &&& desc.textures@[2].label@ == "g-albedo-buffer"@
    &&& desc.textures@[2].kind is RenderTarget
    &&& desc.textures@[2].format == RENDER_TARGET_FORMAT
    &&& desc.textures@[3].label@ == "g-position-buffer"@
    &&& desc.textures@[3].kind is RenderTarget
    &&& desc.textures@[3].format == RENDER_TARGET_FORMAT
}

/// In the deferred renderer no label occurs twice in its namespace, and each
/// label stands where it was declared.
pub proof fn lemma_deferred_names(desc: ScheduledPipelineDescription, surface: SurfaceContext)
    requires
        is_deferred(desc, surface),
    ensures
        desc.duplicate_namespace() is None,
        position(desc.buffer_names(), "mesh-buffer"@) == Some(0int),
        position(desc.buffer_names(), "screen-quad-buffer"@) == Some(1int),
        position(desc.bind_group_names(), "camera-uniform"@) == Some(0int),
        position(desc.bind_group_names(), "texture-buffer"@) == Some(1int),
        position(desc.bind_group_names(), "g-normal-buffer"@) == Some(2int),
        position(desc.bind_group_names(), "g-albedo-buffer"@) == Some(3int),
        position(desc.bind_group_names(), "g-position-buffer"@) == Some(4int),
        position(desc.texture_names(), "g-depth-buffer"@) == Some(0int),
        position(desc.texture_names(), "g-normal-buffer"@) == Some(1int),
        position(desc.texture_names(), "g-albedo-buffer"@) == Some(2int),
        position(desc.texture_names(), "g-position-buffer"@) == Some(3int),
{
    lemma_labels_differ();
    let buffers = desc.buffer_names();
    let groups = desc.bind_group_names();
    let textures = desc.texture_names();
    assert(buffers[0] == "mesh-buffer"@ && buffers[1] == "screen-quad-buffer"@);
    assert(groups[0] == "camera-uniform"@ && groups[1] == "texture-buffer"@ && groups[2]
        == "g-normal-buffer"@ && groups[3] == "g-albedo-buffer"@ && groups[4]
        == "g-position-buffer"@);
    assert(textures[0] == "g-depth-buffer"@ && textures[1] == "g-normal-buffer"@ && textures[2]
        == "g-albedo-buffer"@ && textures[3] == "g-position-buffer"@);
    assert(!has_duplicate(buffers));
    assert(!has_duplicate(groups));
    assert(!has_duplicate(textures));
    assert(is_first_at(buffers, "mesh-buffer"@, 0));
    lemma_position_at(buffers, "mesh-buffer"@, 0);
    assert(is_first_at(buffers, "screen-quad-buffer"@, 1));
    lemma_position_at(buffers, "screen-quad-buffer"@, 1);
    assert(is_first_at(groups, "camera-uniform"@, 0));
    lemma_position_at(groups, "camera-uniform"@, 0);
    assert(is_first_at(groups, "texture-buffer"@, 1));
    lemma_position_at(groups, "texture-buffer"@, 1);
    assert(is_first_at(groups, "g-normal-buffer"@, 2));
    lemma_position_at(groups, "g-normal-buffer"@, 2);
    assert(is_first_at(groups, "g-albedo-buffer"@, 3));
    lemma_position_at(groups, "g-albedo-buffer"@, 3);
    assert(is_first_at(groups, "g-position-buffer"@, 4));
    lemma_position_at(groups, "g-position-buffer"@, 4);
    assert(is_first_at(textures, "g-depth-buffer"@, 0));
    lemma_position_at(textures, "g-depth-buffer"@, 0);
    assert(is_first_at(textures, "g-normal-buffer"@, 1));
    lemma_position_at(textures, "g-normal-buffer"@, 1);
    assert(is_first_at(textures, "g-albedo-buffer"@, 2));
    lemma_position_at(textures, "g-albedo-buffer"@, 2);
    assert(is_first_at(textures, "g-position-buffer"@, 3));
    lemma_position_at(textures, "g-position-buffer"@, 3);
}

/// The geometry pass of the deferred renderer has no fault.
pub proof fn lemma_deferred_g_pass(desc: ScheduledPipelineDescription, surface: SurfaceContext)
    requires
        is_deferred(desc, surface),
    ensures
        desc.node_fault(surface, 0) is None,
{
    lemma_deferred_names(desc, surface);
    let node = desc.shader_nodes@[0];
    let groups = desc.bind_group_names();
    let textures = desc.texture_names();
    let wanted = names_of(node.bind_groups@);
    assert(wanted[0] == "camera-uniform"@ && wanted[1] == "texture-buffer"@);
    assert(all_known(groups, wanted));
    assert(desc.layouts_agree(node)) by {
        assert forall|k: int| 0 <= k < node.bind_groups@.len() implies desc.bind_groups@[slot(
            groups,
            #[trigger] node.bind_groups@[k]@,
        )].layout@ == node.shader.bg_layouts@[k]@ by {
            if k == 0 {
                assert(slot(groups, node.bind_groups@[0]@) == 0);
            } else {
                assert(slot(groups, node.bind_groups@[1]@) == 1);
            }
        }
    }
    let ts = node.targets->Some_0;
    assert(slot(textures, ts@[0]@) == 1 && slot(textures, ts@[1]@) == 2 && slot(
        textures,
        ts@[2]@,
    ) == 3);
    assert(slot(textures, node.depth->Some_0@) == 0);
    assert(desc.attachments_declared(node));
    assert(desc.formats_agree(node, surface));
    assert(desc.reads_follow_writes(0)) by {
        assert forall|k: int| 0 <= k < node.bind_groups@.len() implies (desc.bind_groups@[slot(
            groups,
            #[trigger] node.bind_groups@[k]@,
        )].declared_texture() is None) by {
            if k == 0 {
                assert(slot(groups, node.bind_groups@[0]@) == 0);
            } else {
                assert(slot(groups, node.bind_groups@[1]@) == 1);
            }
        }
    }
}

/// The composite pass of the deferred renderer has no fault: what it
/// samples, the geometry pass has written.
pub proof fn lemma_deferred_composite(desc: ScheduledPipelineDescription, surface: SurfaceContext)
    requires
        is_deferred(desc, surface),
    ensures
        desc.node_fault(surface, 1) is None,
{
    lemma_deferred_names(desc, surface);
    let node = desc.shader_nodes@[1];
    let g_pass = desc.shader_nodes@[0];
    let groups = desc.bind_group_names();
    let textures = desc.texture_names();
    let wanted = names_of(node.bind_groups@);
    assert(wanted[0] == "g-normal-buffer"@ && wanted[1] == "g-albedo-buffer"@ && wanted[2]
        == "g-position-buffer"@);
    assert(all_known(groups, wanted));
    assert(slot(groups, node.bind_groups@[0]@) == 2);
    assert(slot(groups, node.bind_groups@[1]@) == 3);
    assert(slot(groups, node.bind_groups@[2]@) == 4);
    assert(desc.layouts_agree(node)) by {
        assert forall|k: int| 0 <= k < node.bind_groups@.len() implies desc.bind_groups@[slot(
            groups,
            #[trigger] node.bind_groups@[k]@,
        )].layout@ == node.shader.bg_layouts@[k]@ by {
            if k == 0 {
            } else if k == 1 {
            } else {
                assert(k == 2);
            }
        }
    }
    assert(desc.attachments_declared(node));
    assert(desc.formats_agree(node, surface));
    let written = names_of(g_pass.targets->Some_0@);
    assert(written[0] == "g-normal-buffer"@ && written[1] == "g-albedo-buffer"@ && written[2]
        == "g-position-buffer"@);
    assert(node_writes(desc.shader_nodes@[0], "g-normal-buffer"@));
    assert(node_writes(desc.shader_nodes@[0], "g-albedo-buffer"@));
    assert(node_writes(desc.shader_nodes@[0], "g-position-buffer"@));
    assert(desc.written_before(1, "g-normal-buffer"@));
    assert(desc.written_before(1, "g-albedo-buffer"@));
    assert(desc.written_before(1, "g-position-buffer"@));
    assert(desc.reads_follow_writes(1)) by {
        assert forall|k: int| 0 <= k < node.bind_groups@.len() implies (desc.bind_groups@[slot(
            groups,
            #[trigger] node.bind_groups@[k]@,
        )].declared_texture() matches Some(name) ==> desc.written_before(1, name)) by {
            if k == 0 {
            } else if k == 1 {
            } else {
                assert(k == 2);
            }
        }
    }
}

/// The description of the deferred renderer compiles.
pub proof fn lemma_deferred_compiles(desc: ScheduledPipelineDescription, surface: SurfaceContext)
    requires
        is_deferred(desc, surface),
    ensures
        desc.verdict(surface) is None,
{
    lemma_deferred_names(desc, surface);
    lemma_deferred_g_pass(desc, surface);
    lemma_deferred_composite(desc, surface);
    assert(desc.sources_known()) by {
        assert forall|g: int| 0 <= g < desc.bind_groups@.len() implies (
        #[trigger] desc.bind_groups@[g].declared_texture() matches Some(name) ==> position(
            desc.texture_names(),
            name,
        ).is_some()) by {
            if g == 0 {
            } else if g == 1 {
            } else if g == 2 {
            } else if g == 3 {
            } else {
                assert(g == 4);
            }
        }
    }
    assert(desc.unique_bind_groups_known()) by {
        assert forall|b: int| 0 <= b < desc.buffers@.len() implies all_known(
            desc.bind_group_names(),
            names_of(#[trigger] desc.buffers@[b].unique_bind_groups@),
        ) by {
            if b == 0 {
            } else {
                assert(b == 1);
            }
        }
    }
    assert(desc.first_fault(surface, 0) is None);
    assert(desc.first_fault(surface, 1) is None);
    assert(desc.first_fault(surface, 2) is None);
}

/// The passes of the compiled deferred renderer: the geometry pass draws
/// buffer group 0, reads bind groups 0 and 1, and writes textures 1, 2 and 3
/// with texture 0 as depth; the composite pass draws buffer group 1, reads
/// bind groups 2, 3 and 4, and writes to the surface.
pub open spec fn deferred_passes(compiled: CompiledPipeline) -> bool {
    let g_pass = compiled.passes@[0];
    let composite = compiled.passes@[1];
    &&& compiled.passes@.len() == 2
    &&& g_pass.buffer_group == 0
    &&& g_pass.bind_groups@ == seq![0usize, 1usize]
    &&& g_pass.targets matches Some(targets) && targets@ == seq![1usize, 2usize, 3usize]
    &&& g_pass.depth == Some(0usize)
    &&& composite.buffer_group == 1
    &&& composite.bind_groups@ == seq![2usize, 3usize, 4usize]
    &&& composite.targets is None
    &&& composite.depth is None
    &&& compiled.sampled@ == seq![None, None, Some(1usize), Some(2usize), Some(3usize)]
}

/// A pipeline compiled from the description of the deferred renderer has
/// the passes of the deferred renderer.
pub proof fn lemma_deferred_passes(compiled: CompiledPipeline, surface: SurfaceContext)
    requires
        compiled.wf(),
        is_deferred(compiled.source, surface),
    ensures
        deferred_passes(compiled),
{
    let desc = compiled.source;
    lemma_deferred_names(desc, surface);
    let g_pass = compiled.passes@[0];
    let composite = compiled.passes@[1];
    assert(desc.pass_resolves(0, g_pass));
    assert(desc.pass_resolves(1, composite));
    let g_node = desc.shader_nodes@[0];
    let c_node = desc.shader_nodes@[1];
    let g_wanted = names_of(g_node.bind_groups@);
    assert(g_wanted[0] == "camera-uniform"@ && g_wanted[1] == "texture-buffer"@);
    assert(g_pass.bind_groups@ =~= seq![0usize, 1usize]);
    let t_wanted = names_of(g_node.targets->Some_0@);
    assert(t_wanted[0] == "g-normal-buffer"@ && t_wanted[1] == "g-albedo-buffer"@ && t_wanted[2]
        == "g-position-buffer"@);
    assert(g_pass.targets->Some_0@ =~= seq![1usize, 2usize, 3usize]);
    let c_wanted = names_of(c_node.bind_groups@);
    assert(c_wanted[0] == "g-normal-buffer"@ && c_wanted[1] == "g-albedo-buffer"@ && c_wanted[2]
        == "g-position-buffer"@);
    assert(composite.bind_groups@ =~= seq![2usize, 3usize, 4usize]);
    assert(desc.bind_groups@[0].declared_texture() is None);
    assert(desc.bind_groups@[1].declared_texture() is None);
    assert(desc.bind_groups@[2].declared_texture() is Some);
    assert(desc.bind_groups@[3].declared_texture() is Some);
    assert(desc.bind_groups@[4].declared_texture() is Some);
    assert(compiled.sampled@ =~= seq![None, None, Some(1usize), Some(2usize), Some(3usize)]);
}

/// Feeding the deferred renderer leaves it the deferred renderer.
pub proof fn lemma_fed_deferred(
    after: CompiledPipeline,
    before: CompiledPipeline,
    surface: SurfaceContext,
    buffer_group: int,
    uniforms: Seq<usize>,
    live: Seq<LiveMesh>,
    payloads: Seq<Vec<u8>>,
)
    requires
        is_deferred(before.source, surface),
        before.feedable(buffer_group, uniforms),
        payloads_fit(before.source.bind_groups@, uniforms, payloads),
        after.fed_from(before, buffer_group, uniforms, live, payloads),
    ensures
        is_deferred(after.source, surface),
{
    lemma_uploaded_shape(before.source.bind_groups@, uniforms, payloads, payloads.len() as int);
    let groups = after.source.bind_groups@;
    assert(groups[0].label == before.source.bind_groups@[0].label);
    assert(groups[1].label == before.source.bind_groups@[1].label);
    assert(groups[2].label == before.source.bind_groups@[2].label);
    assert(groups[3].label == before.source.bind_groups@[3].label);
    assert(groups[4].label == before.source.bind_groups@[4].label);
    if buffer_group == 0 {
        assert(after.source.buffers@[1] == before.source.buffers@[1]);
    } else {
        assert(after.source.buffers@[0] == before.source.buffers@[0]);
    }
}

} // verus!
