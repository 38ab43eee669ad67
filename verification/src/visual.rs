//! A forward renderer in one pass: the meshes are drawn straight to the
//! surface, with one texture and the camera.

use vstd::prelude::*;
use crate::def_render::{
    camera_layout, default_render_target, mesh_component, texture_layout, MESH_VERTEX_STRIDE,
};
use crate::descriptor::{
    AddressMode, BindingLayout, BufferGroup, ColorTargetState, FilterMode, PhysicalSize,
    PrimitiveTopology, SamplerDescriptor, ScheduledBindGroup, ScheduledBindGroupType,
    ScheduledPipelineDescription, ScheduledShaderNodeDescription, ShaderDefinition,
    SurfaceContext, TextureDescriptor, TextureFormat, TextureSource, TextureUsage,
};
use crate::dynamic::{ComponentType, DynamicNodeDefinition, DynamicRenderPipeline};
use crate::error::PipelineError;
use crate::feed::{payloads_fit, slots_uniform};
use crate::label::{names_of, ShaderLabel};
use crate::pipeline::{all_created, DeviceReport};
use crate::rebuild::{rebuilt, LiveMesh, RebuildFn};
use crate::resolve::resolves;
use crate::visual_valid::{
    forward_passes, is_forward, lemma_fed_forward, lemma_forward_compiles, lemma_forward_names,
    lemma_forward_passes,
};

verus! {

/// The texture that every mesh is drawn with until it has one of its own: a
/// single texel, sampled and copied into, with the sampler that reads it.
pub fn load_textures() -> (out: (TextureDescriptor, SamplerDescriptor))
    ensures
        out.0 == (TextureDescriptor {
            size: PhysicalSize { width: 1, height: 1 },
            format: TextureFormat::Rgba8UnormSrgb,
            usage: TextureUsage { render_attachment: false, texture_binding: true, copy_dst: true },
        }),
        out.1 == (SamplerDescriptor {
            address_mode_u: AddressMode::ClampToEdge,
            address_mode_v: AddressMode::ClampToEdge,
            address_mode_w: AddressMode::ClampToEdge,
            mag_filter: FilterMode::Linear,
            min_filter: FilterMode::Nearest,
            mipmap_filter: FilterMode::Nearest,
        }),
{
    let raw_texture_desc = TextureDescriptor {
        size: PhysicalSize { width: 1, height: 1 },
        format: TextureFormat::Rgba8UnormSrgb,
        usage: TextureUsage { render_attachment: false, texture_binding: true, copy_dst: true },
    };
    let sampler = SamplerDescriptor {
        address_mode_u: AddressMode::ClampToEdge,
        address_mode_v: AddressMode::ClampToEdge,
        address_mode_w: AddressMode::ClampToEdge,
        mag_filter: FilterMode::Linear,
        min_filter: FilterMode::Nearest,
        mipmap_filter: FilterMode::Nearest,
    };
    (raw_texture_desc, sampler)
}

/// The texel that the default texture is filled with: red.
pub fn default_texel() -> (data: Vec<u8>)
    ensures
        data@ == seq![255u8, 0u8, 0u8, 0u8],
{
    let mut data: Vec<u8> = Vec::new();
    data.push(255);
    data.push(0);
    data.push(0);
    data.push(0);
    assert(data@ =~= seq![255u8, 0u8, 0u8, 0u8]);
    data
}

/// The buffer group of the meshes.
pub fn mesh_buffer_label() -> (label: ShaderLabel)
    ensures
        label@ == "mesh-buffer"@,
{
    ShaderLabel::new("mesh-buffer")
}

/// The bind group of the camera uniform.
pub fn mesh_camera_label() -> (label: ShaderLabel)
    ensures
        label@ == "mesh-camera"@,
{
    ShaderLabel::new("mesh-camera")
}

/// The bind group of the mesh texture.
pub fn mesh_texture_label() -> (label: ShaderLabel)
    ensures
        label@ == "mesh-texture"@,
{
    ShaderLabel::new("mesh-texture")
}

/// The two bind groups of the forward renderer differ in name.
pub proof fn lemma_forward_labels_differ()
    ensures
        "mesh-texture"@ != "mesh-camera"@,
{
    reveal_strlit("mesh-texture");
    reveal_strlit("mesh-camera");
    assert("mesh-texture"@.len() != "mesh-camera"@.len());
}

/// The pass is the forward mesh pass: it draws the mesh buffer, reads the
/// mesh texture and the camera, and writes to the surface without a depth
/// test.
pub open spec fn is_mesh_pass(node: ScheduledShaderNodeDescription) -> bool {
    &&& node.buffer_group@ == "mesh-buffer"@
    &&& node.bind_groups@.len() == 2
    &&& node.bind_groups@[0]@ == "mesh-texture"@
    &&& node.bind_groups@[1]@ == "mesh-camera"@
    &&& node.targets is None
    &&& node.depth is None
    &&& node.shader.vertex_stride == MESH_VERTEX_STRIDE
    &&& node.shader.primitive_state == PrimitiveTopology::TriangleList
    &&& node.shader.depth_stencil is None
}

/// The forward mesh pass, and what feeds it: the meshes fill its buffer
/// group, and the camera of the moment is written to its camera bind group.
pub fn generate_shader_node(
    shader_source: String,
    layouts: Vec<BindingLayout>,
    render_targets: Vec<ColorTargetState>,
) -> (out: (ScheduledShaderNodeDescription, DynamicNodeDefinition))
    ensures
        is_mesh_pass(out.0),
        out.0.shader.shader_source == shader_source,
        out.0.shader.bg_layouts == layouts,
        out.0.shader.targets == render_targets,
        out.1.node@ == "mesh-buffer"@,
        out.1.bind_groups@.len() == 1,
        out.1.bind_groups@[0]@ == "mesh-camera"@,
{
    let mut bind_groups: Vec<ShaderLabel> = Vec::new();
    bind_groups.push(mesh_texture_label());
    bind_groups.push(mesh_camera_label());
    let schedule_node = ScheduledShaderNodeDescription {
        buffer_group: mesh_buffer_label(),
        bind_groups,
        targets: None,
        depth: None,
        shader: ShaderDefinition {
            shader_source,
            bg_layouts: layouts,
            vertex_stride: MESH_VERTEX_STRIDE,
            primitive_state: PrimitiveTopology::TriangleList,
            depth_stencil: None,
            targets: render_targets,
        },
    };
    let mut live_bind_groups: Vec<ShaderLabel> = Vec::new();
    live_bind_groups.push(mesh_camera_label());
    let dynamic_node = DynamicNodeDefinition {
        node: mesh_buffer_label(),
        bind_groups: live_bind_groups,
    };
    (schedule_node, dynamic_node)
}

/// What the forward renderer is built from: the source of its shader, the
/// meshes of the moment, and the camera uniform of the moment.
#[derive(Debug)]
pub struct ForwardScene {
    pub shader: String,
    pub meshes: Vec<LiveMesh>,
    pub camera: Vec<u8>,
}

/// The device created the two bind groups and the one pass of the forward
/// renderer, which has no texture of its own.
pub open spec fn forward_device_ok(device: DeviceReport) -> bool {
    &&& all_created(device.textures@, 0)
    &&& all_created(device.bind_groups@, 2)
    &&& all_created(device.pipelines@, 1)
}

/// The description of the forward renderer, with an empty mesh buffer and
/// the given bytes as the camera uniform, and what feeds its pass.
pub fn forward_description(shader: String, camera: Vec<u8>, surface: &SurfaceContext) -> (out: (
    ScheduledPipelineDescription,
    DynamicNodeDefinition,
))
    ensures
        is_forward(out.0, *surface),
        out.0.bind_groups@[1].form == (ScheduledBindGroupType::Uniform { contents: camera }),
        out.0.shader_nodes@[0].shader.shader_source == shader,
        out.1.node@ == "mesh-buffer"@,
        out.1.bind_groups@.len() == 1,
        out.1.bind_groups@[0]@ == "mesh-camera"@,
{
    let (texture_desc, sample_desc) = load_textures();
    let mut layouts: Vec<BindingLayout> = Vec::new();
    layouts.push(texture_layout());
    layouts.push(camera_layout());
    let mut render_targets: Vec<ColorTargetState> = Vec::new();
    render_targets.push(default_render_target(surface));
    let (scheduled_mesh_node, dynamic_mesh_node) = generate_shader_node(
        shader,
        layouts,
        render_targets,
    );
    let mut shader_nodes: Vec<ScheduledShaderNodeDescription> = Vec::new();
    shader_nodes.push(scheduled_mesh_node);

    let mut unique_bind_groups: Vec<ShaderLabel> = Vec::new();
    unique_bind_groups.push(mesh_texture_label());
    let mut buffers: Vec<BufferGroup> = Vec::new();
    buffers.push(
        BufferGroup { label: mesh_buffer_label(), objects: Vec::new(), unique_bind_groups },
    );

    let mut bind_groups: Vec<ScheduledBindGroup> = Vec::new();
    bind_groups.push(
        ScheduledBindGroup {
            label: mesh_texture_label(),
            layout: texture_layout(),
            form: ScheduledBindGroupType::ReadOnlyTexture(
                TextureSource::Unloaded {
                    desc: texture_desc,
                    sampler: sample_desc,
                    data: Some(default_texel()),
                },
            ),
        },
    );
    bind_groups.push(
        ScheduledBindGroup {
            label: mesh_camera_label(),
            layout: camera_layout(),
            form: ScheduledBindGroupType::Uniform { contents: camera },
        },
    );
    let desc = ScheduledPipelineDescription {
        shader_nodes,
        buffers,
        bind_groups,
        textures: Vec::new(),
    };
    (desc, dynamic_mesh_node)
}

/// Builds the forward renderer and feeds it the scene of the moment: the
/// meshes fill the mesh buffer, and the camera the camera uniform. Fails
/// where the device did not create everything, and else where the meshes do
/// not hold whole vertices.
pub fn load_render_pipeline(
    scene: ForwardScene,
    surface: &SurfaceContext,
    device: &DeviceReport,
) -> (outcome: Result<DynamicRenderPipeline, PipelineError>)
    ensures
        match outcome {
            Ok(dynamic) => {
                &&& forward_device_ok(*device)
                &&& (RebuildFn { vertex_stride: MESH_VERTEX_STRIDE }).accepts(scene.meshes@)
                &&& dynamic.wf()
                &&& is_forward(dynamic.pipeline.source, *surface)
                &&& forward_passes(dynamic.pipeline)
                &&& dynamic.pipeline.source.buffers@[0].objects@ == rebuilt(scene.meshes@)
                &&& dynamic.pipeline.source.bind_groups@[1].form matches ScheduledBindGroupType::Uniform {
                    contents,
                } && contents@ == scene.camera@
                &&& dynamic.bindings@.len() == 1
                &&& dynamic.bindings@[0].component == ComponentType(0)
                &&& dynamic.bindings@[0].buffer_group == 0
                &&& dynamic.bindings@[0].uniforms@ == seq![1usize]
                &&& dynamic.bindings@[0].rebuild.vertex_stride == MESH_VERTEX_STRIDE
            },
            Err(e) => if !forward_device_ok(*device) {
                e == PipelineError::DeviceResourceFailure
            } else {
                e == PipelineError::LayoutMismatch && !(RebuildFn {
                    vertex_stride: MESH_VERTEX_STRIDE,
                }).accepts(scene.meshes@)
            },
        },
{
    let ForwardScene { shader, meshes, camera } = scene;
    let payload = camera.clone();
    assert(payload@ =~= camera@);
    let (desc, dynamic_mesh_node) = forward_description(shader, camera, surface);
    proof {
        lemma_forward_compiles(desc, *surface);
    }
    let rp = match desc.finalize(surface, device) {
        Ok(rp) => rp,
        Err(e) => {
            return Err(e);
        },
    };
    proof {
        lemma_forward_passes(rp, *surface);
        lemma_forward_names(rp.source, *surface);
    }
    let mut dynamic = DynamicRenderPipeline::new(rp);
    let ghost built = dynamic;
    let ghost names = built.pipeline.source.bind_group_names();
    let mut payloads: Vec<Vec<u8>> = Vec::new();
    payloads.push(payload);
    let mesh_rebuild = RebuildFn { vertex_stride: MESH_VERTEX_STRIDE };
    proof {
        let wanted = names_of(dynamic_mesh_node.bind_groups@);
        assert(wanted[0] == "mesh-camera"@);
        assert(built.pipeline.source.register_fault(dynamic_mesh_node) is None);
        assert(resolves(names, wanted, seq![1usize]));
        assert(slots_uniform(built.pipeline.source.bind_groups@, seq![1usize]));
        assert(payloads_fit(built.pipeline.source.bind_groups@, seq![1usize], payloads@));
        assert(!crate::dynamic::is_bound(built.bindings@, ComponentType(0)));
    }
    match dynamic.register_shader(
        mesh_component(),
        &dynamic_mesh_node,
        mesh_rebuild,
        meshes,
        payloads,
    ) {
        Ok(_) => {},
        Err(e) => {
            proof {
                assert(forward_device_ok(*device));
                assert(e == PipelineError::LayoutMismatch);
                assert(!built.pipeline.takes(seq![1usize], mesh_rebuild, meshes@, payloads@));
                assert(!mesh_rebuild.accepts(meshes@));
            }
            return Err(e);
        },
    }
    proof {
        let wanted = names_of(dynamic_mesh_node.bind_groups@);
        let binding = dynamic.bindings@[0];
        assert(crate::label::position(names, wanted[0]) == Some(binding.uniforms@[0] as int));
        assert(binding.uniforms@ =~= seq![1usize]);
        assert(binding.buffer_group == 0);
        lemma_fed_forward(
            dynamic.pipeline,
            built.pipeline,
            *surface,
            0,
            seq![1usize],
            meshes@,
            payloads@,
        );
        assert(dynamic.pipeline.source.bind_groups@[1] == crate::feed::with_contents(
            built.pipeline.source.bind_groups@[1],
            payloads@[0],
        )) by {
            reveal_with_fuel(crate::feed::uploaded, 2);
        }
    }
    Ok(dynamic)
}

} // verus!
