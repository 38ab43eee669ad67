//! A deferred renderer in two passes: a geometry pass that draws the meshes
//! into a G-buffer, and a composite pass that samples the G-buffer over a
//! screen quad and draws to the surface.

use vstd::prelude::*;
use crate::descriptor::{
    BindingEntry, BindingLayout, BindingType, BufferGroup, ColorTargetState, CompareFunction,
    DepthStencilState, PhysicalSize, PrimitiveTopology, ScheduledBindGroup,
    ScheduledBindGroupType, ScheduledPipelineDescription, ScheduledShaderNodeDescription,
    ScheduledTexture, ShaderDefinition, ShaderStages, SurfaceContext, TextureFormat,
    TextureSource, RENDER_TARGET_FORMAT,
};
use crate::deferred_valid::{
    deferred_passes, is_deferred, lemma_deferred_compiles, lemma_deferred_names,
    lemma_deferred_passes, lemma_fed_deferred,
};
use crate::dynamic::{ComponentType, DynamicNodeDefinition, DynamicRenderPipeline};
use crate::error::PipelineError;
use crate::feed::{payloads_fit, slots_uniform};
use crate::label::{names_of, ShaderLabel};
use crate::pipeline::{all_created, DeviceReport};
use crate::rebuild::{rebuilt, LiveMesh, RebuildFn};
use crate::resolve::resolves;
use crate::visual::{default_texel, load_textures};

verus! {

/// The bytes of one mesh vertex: position, texture coordinates, material and
/// normal, nine numbers of four bytes.
pub const MESH_VERTEX_STRIDE: usize = 36;

/// The binding at which the geometry pass reads the camera.
pub const CAMERA_BG_INDEX: usize = 0;

/// The buffer group of the meshes.
pub fn mesh_buffer_label() -> (label: ShaderLabel)
    ensures
        label@ == "mesh-buffer"@,
{
    ShaderLabel::new("mesh-buffer")
}

/// The bind group of the camera uniform.
pub fn camera_buffer_label() -> (label: ShaderLabel)
    ensures
        label@ == "camera-uniform"@,
{
    ShaderLabel::new("camera-uniform")
}

/// The bind group of the mesh texture.
pub fn texture_buffer_label() -> (label: ShaderLabel)
    ensures
        label@ == "texture-buffer"@,
{
    ShaderLabel::new("texture-buffer")
}

/// The G-buffer texture of positions, and the bind group that samples it.
pub fn g_position_label() -> (label: ShaderLabel)
    ensures
        label@ == "g-position-buffer"@,
{
    ShaderLabel::new("g-position-buffer")
}

/// The G-buffer texture of albedo, and the bind group that samples it.
pub fn g_albedo_label() -> (label: ShaderLabel)
    ensures
        label@ == "g-albedo-buffer"@,
{
    ShaderLabel::new("g-albedo-buffer")
}

/// The G-buffer texture of normals, and the bind group that samples it.
pub fn g_normal_label() -> (label: ShaderLabel)
    ensures
        label@ == "g-normal-buffer"@,
{
    ShaderLabel::new("g-normal-buffer")
}

/// The depth texture of the geometry pass.
pub fn g_depth_label() -> (label: ShaderLabel)
    ensures
        label@ == "g-depth-buffer"@,
{
    ShaderLabel::new("g-depth-buffer")
}

/// The buffer group of the screen quad.
pub fn screen_quad_buffer_label() -> (label: ShaderLabel)
    ensures
        label@ == "screen-quad-buffer"@,
{
    ShaderLabel::new("screen-quad-buffer")
}

/// The size of the G-buffer.
pub fn render_dimensions() -> (size: PhysicalSize)
    ensures
        size == (PhysicalSize { width: 1920, height: 1080 }),
{
    PhysicalSize { width: 1920, height: 1080 }
}

/// The component type of the meshes.
pub fn mesh_component() -> (component: ComponentType)
    ensures
        component == ComponentType(0),
{
    ComponentType(0)
}

/// The component type of the screen quad.
pub fn screen_quad_component() -> (component: ComponentType)
    ensures
        component == ComponentType(1),
{
    ComponentType(1)
}

/// The labels of the deferred renderer differ from one another within each
/// namespace.
pub proof fn lemma_labels_differ()
    ensures
        "mesh-buffer"@ != "screen-quad-buffer"@,
        "camera-uniform"@ != "texture-buffer"@,
        "camera-uniform"@ != "g-normal-buffer"@,
        "camera-uniform"@ != "g-albedo-buffer"@,
        "camera-uniform"@ != "g-position-buffer"@,
        "texture-buffer"@ != "g-normal-buffer"@,
        "texture-buffer"@ != "g-albedo-buffer"@,
        "texture-buffer"@ != "g-position-buffer"@,
        "g-normal-buffer"@ != "g-albedo-buffer"@,
        "g-normal-buffer"@ != "g-position-buffer"@,
        "g-albedo-buffer"@ != "g-position-buffer"@,
        "g-depth-buffer"@ != "g-normal-buffer"@,
        "g-depth-buffer"@ != "g-albedo-buffer"@,
        "g-depth-buffer"@ != "g-position-buffer"@,
{
    reveal_strlit("mesh-buffer");
    reveal_strlit("screen-quad-buffer");
    reveal_strlit("camera-uniform");
    reveal_strlit("texture-buffer");
    reveal_strlit("g-normal-buffer");
    reveal_strlit("g-albedo-buffer");
    reveal_strlit("g-position-buffer");
    reveal_strlit("g-depth-buffer");
    assert("mesh-buffer"@.len() != "screen-quad-buffer"@.len());
    assert("camera-uniform"@[0] != "texture-buffer"@[0]);
    assert("camera-uniform"@.len() != "g-normal-buffer"@.len());
    assert("camera-uniform"@.len() != "g-albedo-buffer"@.len());
    assert("camera-uniform"@.len() != "g-position-buffer"@.len());
    assert("texture-buffer"@.len() != "g-normal-buffer"@.len());
    assert("texture-buffer"@.len() != "g-albedo-buffer"@.len());
    assert("texture-buffer"@.len() != "g-position-buffer"@.len());
    assert("g-normal-buffer"@[2] != "g-albedo-buffer"@[2]);
    assert("g-normal-buffer"@.len() != "g-position-buffer"@.len());
    assert("g-albedo-buffer"@.len() != "g-position-buffer"@.len());
    assert("g-depth-buffer"@.len() != "g-normal-buffer"@.len());
    assert("g-depth-buffer"@.len() != "g-albedo-buffer"@.len());
    assert("g-depth-buffer"@.len() != "g-position-buffer"@.len());
}

/// The layout of the camera bind group: one uniform block, seen by the
/// vertex stage.
pub open spec fn camera_entries() -> Seq<BindingEntry> {
    seq![BindingEntry { visibility: ShaderStages::Vertex, ty: BindingType::UniformBuffer }]
}

/// The layout of a bind group that samples a loaded texture: a filterable
/// texture and a filtering sampler, seen by the fragment stage.
pub open spec fn texture_entries() -> Seq<BindingEntry> {
    seq![
        BindingEntry {
            visibility: ShaderStages::Fragment,
            ty: BindingType::Texture { filterable: true },
        },
        BindingEntry {
            visibility: ShaderStages::Fragment,
            ty: BindingType::Sampler { filtering: true },
        },
    ]
}

/// The layout of a bind group that samples a render target: a texture that
/// is not filtered and its sampler, seen by the fragment stage.
pub open spec fn render_texture_entries() -> Seq<BindingEntry> {
    seq![
        BindingEntry {
            visibility: ShaderStages::Fragment,
            ty: BindingType::Texture { filterable: false },
        },
        BindingEntry {
            visibility: ShaderStages::Fragment,
            ty: BindingType::Sampler { filtering: false },
        },
    ]
}

/// The layout of the camera bind group.
pub fn camera_layout() -> (layout: BindingLayout)
    ensures
        layout@ == camera_entries(),
{
    let mut entries: Vec<BindingEntry> = Vec::new();
    entries.push(BindingEntry { visibility: ShaderStages::Vertex, ty: BindingType::UniformBuffer });
    assert(entries@ =~= camera_entries());
    BindingLayout { entries }
}

/// The layout of a bind group that samples a loaded texture.
pub fn texture_layout() -> (layout: BindingLayout)
    ensures
        layout@ == texture_entries(),
{
    let mut entries: Vec<BindingEntry> = Vec::new();
    entries.push(
        BindingEntry {
            visibility: ShaderStages::Fragment,
            ty: BindingType::Texture { filterable: true },
        },
    );
    entries.push(
        BindingEntry {
            visibility: ShaderStages::Fragment,
            ty: BindingType::Sampler { filtering: true },
        },
    );
    assert(entries@ =~= texture_entries());
    BindingLayout { entries }
}

/// The layout of a bind group that samples a render target.
pub fn render_texture_layout() -> (layout: BindingLayout)
    ensures
        layout@ == render_texture_entries(),
{
    let mut entries: Vec<BindingEntry> = Vec::new();
    entries.push(
        BindingEntry {
            visibility: ShaderStages::Fragment,
            ty: BindingType::Texture { filterable: false },
        },
    );
    entries.push(
        BindingEntry {
            visibility: ShaderStages::Fragment,
            ty: BindingType::Sampler { filtering: false },
        },
    );
    assert(entries@ =~= render_texture_entries());
    BindingLayout { entries }
}

/// One output of a pass that renders into the G-buffer.
pub fn render_texture_target() -> (target: ColorTargetState)
    ensures
        target == (ColorTargetState { format: RENDER_TARGET_FORMAT, blend: None }),
{
    ColorTargetState { format: RENDER_TARGET_FORMAT, blend: None }
}

/// The output of a pass that renders to the surface.
pub fn default_render_target(surface: &SurfaceContext) -> (target: ColorTargetState)
    ensures
        target == (ColorTargetState { format: surface.format, blend: None }),
{
    ColorTargetState { format: surface.format, blend: None }
}

/// The pass is the geometry pass: it draws the mesh buffer, reads the camera
/// and the mesh texture, and writes normals, albedo and positions, with a
/// depth test against the G-buffer's depth texture.
pub open spec fn is_g_pass(node: ScheduledShaderNodeDescription) -> bool {
    &&& node.buffer_group@ == "mesh-buffer"@
    &&& node.bind_groups@.len() == 2
    &&& node.bind_groups@[0]@ == "camera-uniform"@
    &&& node.bind_groups@[1]@ == "texture-buffer"@
    &&& node.targets matches Some(ts) && {
        &&& ts@.len() == 3
        &&& ts@[0]@ == "g-normal-buffer"@
        &&& ts@[1]@ == "g-albedo-buffer"@
        &&& ts@[2]@ == "g-position-buffer"@
    }
    &&& node.depth matches Some(d) && d@ == "g-depth-buffer"@
    &&& node.shader.vertex_stride == MESH_VERTEX_STRIDE
    &&& node.shader.primitive_state == PrimitiveTopology::TriangleList
    &&& node.shader.depth_stencil == Some(
        DepthStencilState {
            format: TextureFormat::Depth32Float,
            depth_write_enabled: true,
            depth_compare: CompareFunction::LessEqual,
        },
    )
}

/// The pass is the composite pass: it draws the screen quad, samples
/// normals, albedo and positions, and writes to the surface without a depth
/// test.
pub open spec fn is_composite_pass(node: ScheduledShaderNodeDescription) -> bool {
    &&& node.buffer_group@ == "screen-quad-buffer"@
    &&& node.bind_groups@.len() == 3
    &&& node.bind_groups@[0]@ == "g-normal-buffer"@
    &&& node.bind_groups@[1]@ == "g-albedo-buffer"@
    &&& node.bind_groups@[2]@ == "g-position-buffer"@
    &&& node.targets is None
    &&& node.depth is None
    &&& node.shader.primitive_state == PrimitiveTopology::TriangleList
    &&& node.shader.depth_stencil is None
}

/// The geometry pass, and what feeds it: the meshes fill its buffer group,
/// and the camera of the moment is written to its camera bind group.
pub fn load_g_pass_shader_layout(
    shader_source: String,
    layouts: Vec<BindingLayout>,
    render_targets: Vec<ColorTargetState>,
) -> (out: (ScheduledShaderNodeDescription, DynamicNodeDefinition))
    ensures
        is_g_pass(out.0),
        out.0.shader.shader_source == shader_source,
        out.0.shader.bg_layouts == layouts,
        out.0.shader.targets == render_targets,
        out.1.node@ == "mesh-buffer"@,
        out.1.bind_groups@.len() == 1,
        out.1.bind_groups@[0]@ == "camera-uniform"@,
{
    let mut bind_groups: Vec<ShaderLabel> = Vec::new();
    bind_groups.push(camera_buffer_label());
    bind_groups.push(texture_buffer_label());
    let mut targets: Vec<ShaderLabel> = Vec::new();
    targets.push(g_normal_label());
    targets.push(g_albedo_label());
    targets.push(g_position_label());
    let schedule_node = ScheduledShaderNodeDescription {
        buffer_group: mesh_buffer_label(),
        bind_groups,
        targets: Some(targets),
        depth: Some(g_depth_label()),
        shader: ShaderDefinition {
            shader_source,
            bg_layouts: layouts,
            vertex_stride: MESH_VERTEX_STRIDE,
            primitive_state: PrimitiveTopology::TriangleList,
            depth_stencil: Some(
                DepthStencilState {
                    format: TextureFormat::Depth32Float,
                    depth_write_enabled: true,
                    depth_compare: CompareFunction::LessEqual,
                },
            ),
            targets: render_targets,
        },
    };
    let mut live_bind_groups: Vec<ShaderLabel> = Vec::new();
    live_bind_groups.push(camera_buffer_label());
    let dynamic_node = DynamicNodeDefinition {
        node: mesh_buffer_label(),
        bind_groups: live_bind_groups,
    };
    (schedule_node, dynamic_node)
}

/// The composite pass, and what feeds it: the screen quad fills its buffer
/// group.
pub fn load_composite_pass_shader_layout(
    shader_source: String,
    layouts: Vec<BindingLayout>,
    render_targets: Vec<ColorTargetState>,
    vertex_stride: usize,
) -> (out: (ScheduledShaderNodeDescription, DynamicNodeDefinition))
    ensures
        is_composite_pass(out.0),
        out.0.shader.shader_source == shader_source,
        out.0.shader.bg_layouts == layouts,
        out.0.shader.targets == render_targets,
        out.0.shader.vertex_stride == vertex_stride,
        out.1.node@ == "screen-quad-buffer"@,
        out.1.bind_groups@.len() == 0,
{
    let mut bind_groups: Vec<ShaderLabel> = Vec::new();
    bind_groups.push(g_normal_label());
    bind_groups.push(g_albedo_label());
    bind_groups.push(g_position_label());
    let schedule_node = ScheduledShaderNodeDescription {
        buffer_group: screen_quad_buffer_label(),
        bind_groups,
        targets: None,
        depth: None,
        shader: ShaderDefinition {
            shader_source,
            bg_layouts: layouts,
            vertex_stride,
            primitive_state: PrimitiveTopology::TriangleList,
            depth_stencil: None,
            targets: render_targets,
        },
    };
    let dynamic_node = DynamicNodeDefinition {
        node: screen_quad_buffer_label(),
        bind_groups: Vec::new(),
    };
    (schedule_node, dynamic_node)
}

/// What the deferred renderer is built from: the sources of its two shaders,
/// the meshes and the screen quad of the moment, the bytes of one vertex of
/// the screen quad, and the camera uniform of the moment.
#[derive(Debug)]
pub struct DeferredScene {
    pub g_pass_shader: String,
    pub composite_shader: String,
    pub meshes: Vec<LiveMesh>,
    pub screen_quad: LiveMesh,
    pub screen_quad_stride: usize,
    pub camera: Vec<u8>,
}

/// The device created the four textures, five bind groups and two passes of
/// the deferred renderer.
pub open spec fn deferred_device_ok(device: DeviceReport) -> bool {
    &&& all_created(device.textures@, 4)
    &&& all_created(device.bind_groups@, 5)
    &&& all_created(device.pipelines@, 2)
}

/// The live data of the scene fits: the meshes hold whole mesh vertices, and
/// the screen quad whole vertices of its own stride.
pub open spec fn deferred_scene_fits(scene: DeferredScene) -> bool {
    &&& (RebuildFn { vertex_stride: MESH_VERTEX_STRIDE }).accepts(scene.meshes@)
    &&& (RebuildFn { vertex_stride: scene.screen_quad_stride }).accepts(seq![scene.screen_quad])
}

/// The description of the deferred renderer, with empty buffer groups and
/// the given bytes as the camera uniform, and what feeds its two passes.
pub fn deferred_description(
    g_pass_shader: String,
    composite_shader: String,
    screen_quad_stride: usize,
    camera: Vec<u8>,
    surface: &SurfaceContext,
) -> (out: (ScheduledPipelineDescription, DynamicNodeDefinition, DynamicNodeDefinition))
    ensures
        is_deferred(out.0, *surface),
        out.0.bind_groups@[0].form == (ScheduledBindGroupType::Uniform { contents: camera }),
        out.0.shader_nodes@[0].shader.shader_source == g_pass_shader,
        out.0.shader_nodes@[1].shader.shader_source == composite_shader,
        out.0.shader_nodes@[1].shader.vertex_stride == screen_quad_stride,
        out.1.node@ == "mesh-buffer"@,
        out.1.bind_groups@.len() == 1,
        out.1.bind_groups@[0]@ == "camera-uniform"@,
        out.2.node@ == "screen-quad-buffer"@,
        out.2.bind_groups@.len() == 0,
{
    let mut g_layouts: Vec<BindingLayout> = Vec::new();
    g_layouts.push(camera_layout());
    g_layouts.push(texture_layout());
    let mut g_targets: Vec<ColorTargetState> = Vec::new();
    g_targets.push(render_texture_target());
    g_targets.push(render_texture_target());
    g_targets.push(render_texture_target());
    let (g_pass_snode, g_pass_dnode) = load_g_pass_shader_layout(
        g_pass_shader,
        g_layouts,
        g_targets,
    );

    let mut composite_layouts: Vec<BindingLayout> = Vec::new();
    composite_layouts.push(render_texture_layout());
    composite_layouts.push(render_texture_layout());
    composite_layouts.push(render_texture_layout());
    let mut composite_targets: Vec<ColorTargetState> = Vec::new();
    composite_targets.push(default_render_target(surface));
    let (composite_snode, composite_dnode) = load_composite_pass_shader_layout(
        composite_shader,
        composite_layouts,
        composite_targets,
        screen_quad_stride,
    );

    let mut shader_nodes: Vec<ScheduledShaderNodeDescription> = Vec::new();
    shader_nodes.push(g_pass_snode);
    shader_nodes.push(composite_snode);

    let mut buffers: Vec<BufferGroup> = Vec::new();
    buffers.push(
        BufferGroup {
            label: mesh_buffer_label(),
            objects: Vec::new(),
            unique_bind_groups: Vec::new(),
        },
    );
    buffers.push(
        BufferGroup {
            label: screen_quad_buffer_label(),
            objects: Vec::new(),
            unique_bind_groups: Vec::new(),
        },
    );

    let (default_text_desc, default_sample_desc) = load_textures();
    let mut bind_groups: Vec<ScheduledBindGroup> = Vec::new();
    bind_groups.push(
        ScheduledBindGroup {
            label: camera_buffer_label(),
            layout: camera_layout(),
            form: ScheduledBindGroupType::Uniform { contents: camera },
        },
    );
    bind_groups.push(
        ScheduledBindGroup {
            label: texture_buffer_label(),
            layout: texture_layout(),
            form: ScheduledBindGroupType::ReadOnlyTexture(
                TextureSource::Unloaded {
                    desc: default_text_desc,
                    sampler: default_sample_desc,
                    data: Some(default_texel()),
                },
            ),
        },
    );
    bind_groups.push(
        ScheduledBindGroup {
            label: g_normal_label(),
            layout: render_texture_layout(),
            form: ScheduledBindGroupType::ReadOnlyTexture(
                TextureSource::Declared(g_normal_label()),
            ),
        },
    );
    bind_groups.push(
        ScheduledBindGroup {
            label: g_albedo_label(),
            layout: render_texture_layout(),
            form: ScheduledBindGroupType::ReadOnlyTexture(
                TextureSource::Declared(g_albedo_label()),
            ),
        },
    );
    bind_groups.push(
        ScheduledBindGroup {
            label: g_position_label(),
            layout: render_texture_layout(),
            form: ScheduledBindGroupType::ReadOnlyTexture(
                TextureSource::Declared(g_position_label()),
            ),
        },
    );

    let mut textures: Vec<ScheduledTexture> = Vec::new();
    textures.push(ScheduledTexture::depth(g_depth_label(), render_dimensions()));
    textures.push(ScheduledTexture::render_target(g_normal_label(), render_dimensions()));
    textures.push(ScheduledTexture::render_target(g_albedo_label(), render_dimensions()));
    textures.push(ScheduledTexture::render_target(g_position_label(), render_dimensions()));

    let desc = ScheduledPipelineDescription { shader_nodes, buffers, bind_groups, textures };
    (desc, g_pass_dnode, composite_dnode)
}

/// Builds the deferred renderer and feeds it the scene of the moment: the
/// meshes fill the buffer group of the geometry pass, the camera its camera
/// uniform, and the screen quad the buffer group of the composite pass.
/// Fails where the device did not create everything, and else where the live
/// data does not fit.
pub fn deferred_3d_pipeline(
    scene: DeferredScene,
    surface: &SurfaceContext,
    device: &DeviceReport,
) -> (outcome: Result<DynamicRenderPipeline, PipelineError>)
    ensures
        match outcome {
            Ok(dynamic) => {
                &&& deferred_device_ok(*device)
                &&& deferred_scene_fits(scene)
                &&& dynamic.wf()
                &&& is_deferred(dynamic.pipeline.source, *surface)
                &&& deferred_passes(dynamic.pipeline)
                &&& dynamic.pipeline.source.buffers@[0].objects@ == rebuilt(scene.meshes@)
                &&& dynamic.pipeline.source.buffers@[1].objects@ == rebuilt(
                    seq![scene.screen_quad],
                )
                &&& dynamic.pipeline.source.bind_groups@[0].form matches ScheduledBindGroupType::Uniform {
                    contents,
                } && contents@ == scene.camera@
                &&& dynamic.bindings@.len() == 2
                &&& dynamic.bindings@[0].component == ComponentType(0)
                &&& dynamic.bindings@[0].buffer_group == 0
                &&& dynamic.bindings@[0].uniforms@ == seq![0usize]
                &&& dynamic.bindings@[0].rebuild.vertex_stride == MESH_VERTEX_STRIDE
                &&& dynamic.bindings@[1].component == ComponentType(1)
                &&& dynamic.bindings@[1].buffer_group == 1
                &&& dynamic.bindings@[1].uniforms@.len() == 0
                &&& dynamic.bindings@[1].rebuild.vertex_stride == scene.screen_quad_stride
            },
            Err(e) => if !deferred_device_ok(*device) {
                e == PipelineError::DeviceResourceFailure
            } else {
                e == PipelineError::LayoutMismatch && !deferred_scene_fits(scene)
            },
        },
{
    let DeferredScene {
        g_pass_shader,
        composite_shader,
        meshes,
        screen_quad,
        screen_quad_stride,
        camera,
    } = scene;
    let payload = camera.clone();
    assert(payload@ =~= camera@);
    let (desc, g_pass_dnode, composite_dnode) = deferred_description(
        g_pass_shader,
        composite_shader,
        screen_quad_stride,
        camera,
        surface,
    );
    proof {
        lemma_deferred_compiles(desc, *surface);
    }
    let rp = match desc.finalize(surface, device) {
        Ok(rp) => rp,
        Err(e) => {
            return Err(e);
        },
    };
    proof {
        lemma_deferred_passes(rp, *surface);
        lemma_deferred_names(rp.source, *surface);
    }
    let mut dynamic = DynamicRenderPipeline::new(rp);
    let ghost built = dynamic;
    let ghost names = built.pipeline.source.bind_group_names();
    let mut payloads: Vec<Vec<u8>> = Vec::new();
    payloads.push(payload);
    let mesh_rebuild = RebuildFn { vertex_stride: MESH_VERTEX_STRIDE };
    proof {
        let wanted = names_of(g_pass_dnode.bind_groups@);
        assert(wanted[0] == "camera-uniform"@);
        assert(built.pipeline.source.register_fault(g_pass_dnode) is None);
        assert(resolves(names, wanted, seq![0usize]));
        assert(slots_uniform(built.pipeline.source.bind_groups@, seq![0usize]));
        assert(payloads_fit(built.pipeline.source.bind_groups@, seq![0usize], payloads@));
        assert(!crate::dynamic::is_bound(built.bindings@, ComponentType(0)));
    }
    match dynamic.register_shader(mesh_component(), &g_pass_dnode, mesh_rebuild, meshes, payloads) {
        Ok(_) => {},
        Err(e) => {
            proof {
                assert(deferred_device_ok(*device));
                assert(e == PipelineError::LayoutMismatch);
                assert(!built.pipeline.takes(seq![0usize], mesh_rebuild, meshes@, payloads@));
                assert(!mesh_rebuild.accepts(meshes@));
            }
            return Err(e);
        },
    }
    let ghost meshed = dynamic;
    proof {
        let wanted = names_of(g_pass_dnode.bind_groups@);
        let binding = meshed.bindings@[0];
        assert(crate::label::position(names, wanted[0]) == Some(binding.uniforms@[0] as int));
        assert(binding.uniforms@ =~= seq![0usize]);
        assert(binding.buffer_group == 0);
        lemma_fed_deferred(
            meshed.pipeline,
            built.pipeline,
            *surface,
            0,
            seq![0usize],
            meshes@,
            payloads@,
        );
        lemma_deferred_names(meshed.pipeline.source, *surface);
        assert(meshed.pipeline.source.bind_groups@[0] == crate::feed::with_contents(
            built.pipeline.source.bind_groups@[0],
            payloads@[0],
        )) by {
            reveal_with_fuel(crate::feed::uploaded, 2);
        }
        let quad_wanted = names_of(composite_dnode.bind_groups@);
        assert(meshed.pipeline.source.register_fault(composite_dnode) is None);
        assert(!crate::dynamic::is_bound(meshed.bindings@, ComponentType(1))) by {
            assert forall|i: int| !crate::dynamic::bound_at(
                meshed.bindings@,
                ComponentType(1),
                i,
            ) by {}
        }
    }
    let mut quads: Vec<LiveMesh> = Vec::new();
    quads.push(screen_quad);
    assert(quads@ =~= seq![screen_quad]);
    let quad_rebuild = RebuildFn { vertex_stride: screen_quad_stride };
    let no_payloads: Vec<Vec<u8>> = Vec::new();
    proof {
        assert(payloads_fit(
            meshed.pipeline.source.bind_groups@,
            Seq::<usize>::empty(),
            no_payloads@,
        ));
        assert(resolves(
            meshed.pipeline.source.bind_group_names(),
            names_of(composite_dnode.bind_groups@),
            Seq::<usize>::empty(),
        ));
    }
    match dynamic.register_shader(
        screen_quad_component(),
        &composite_dnode,
        quad_rebuild,
        quads,
        no_payloads,
    ) {
        Ok(_) => {},
        Err(e) => {
            proof {
                assert(deferred_device_ok(*device));
                assert(e == PipelineError::LayoutMismatch);
                assert(!meshed.pipeline.takes(
                    Seq::<usize>::empty(),
                    quad_rebuild,
                    quads@,
                    no_payloads@,
                ));
                assert(!quad_rebuild.accepts(quads@));
            }
            return Err(e);
        },
    }
    proof {
        let binding = dynamic.bindings@[1];
        assert(binding.uniforms@ =~= Seq::<usize>::empty());
        assert(binding.buffer_group == 1);
        lemma_fed_deferred(
            dynamic.pipeline,
            meshed.pipeline,
            *surface,
            1,
            Seq::<usize>::empty(),
            quads@,
            no_payloads@,
        );
        assert(dynamic.pipeline.source.buffers@[0] == meshed.pipeline.source.buffers@[0]);
        assert(dynamic.pipeline.source.bind_groups@ == meshed.pipeline.source.bind_groups@);
    }
    Ok(dynamic)
}

} // verus!
