use fun_lights::compiled::CompiledPipeline;
use fun_lights::descriptor::{
    BindingEntry, BindingLayout, BindingType, BufferGroup, ColorTargetState, PhysicalSize,
    PrimitiveTopology, ScheduledBindGroup, ScheduledBindGroupType, ScheduledPipelineDescription,
    ScheduledShaderNodeDescription, ShaderDefinition, ShaderStages, SurfaceContext,
    TextureDescriptor, TextureFormat, TextureSource, TextureUsage,
};
use fun_lights::descriptor::{AddressMode, FilterMode, SamplerDescriptor};
use fun_lights::dynamic::{ComponentType, DynamicNodeDefinition, DynamicRenderPipeline};
use fun_lights::error::PipelineError;
use fun_lights::label::{Namespace, ShaderLabel};
use fun_lights::pipeline::DeviceReport;
use fun_lights::rebuild::{LiveMesh, RebuildFn};

const MESH: ComponentType = ComponentType(7);
const QUAD: ComponentType = ComponentType(8);

fn label(name: &str) -> ShaderLabel {
    ShaderLabel::new(name)
}

fn surface() -> SurfaceContext {
    SurfaceContext {
        size: PhysicalSize { width: 800, height: 600 },
        format: TextureFormat::Bgra8UnormSrgb,
    }
}

fn uniform_layout() -> BindingLayout {
    BindingLayout {
        entries: vec![BindingEntry {
            visibility: ShaderStages::Vertex,
            ty: BindingType::UniformBuffer,
        }],
    }
}

fn texture_layout() -> BindingLayout {
    BindingLayout {
        entries: vec![BindingEntry {
            visibility: ShaderStages::Fragment,
            ty: BindingType::Texture { filterable: true },
        }],
    }
}

fn compiled() -> CompiledPipeline {
    let sampler = SamplerDescriptor {
        address_mode_u: AddressMode::Repeat,
        address_mode_v: AddressMode::Repeat,
        address_mode_w: AddressMode::Repeat,
        mag_filter: FilterMode::Linear,
        min_filter: FilterMode::Linear,
        mipmap_filter: FilterMode::Nearest,
    };
    let desc = ScheduledPipelineDescription {
        shader_nodes: vec![ScheduledShaderNodeDescription {
            buffer_group: label("meshes"),
            bind_groups: vec![label("camera"), label("diffuse")],
            targets: None,
            depth: None,
            shader: ShaderDefinition {
                shader_source: String::from("forward"),
                bg_layouts: vec![uniform_layout(), texture_layout()],
                vertex_stride: 12,
                primitive_state: PrimitiveTopology::TriangleList,
                depth_stencil: None,
                targets: vec![ColorTargetState {
                    format: TextureFormat::Bgra8UnormSrgb,
                    blend: None,
                }],
            },
        }],
        buffers: vec![
            BufferGroup {
                label: label("meshes"),
                objects: Vec::new(),
                unique_bind_groups: vec![label("diffuse")],
            },
            BufferGroup { label: label("quad"), objects: Vec::new(), unique_bind_groups: Vec::new() },
        ],
        bind_groups: vec![
            ScheduledBindGroup {
                label: label("camera"),
                layout: uniform_layout(),
                form: ScheduledBindGroupType::Uniform { contents: vec![0u8; 4] },
            },
            ScheduledBindGroup {
                label: label("diffuse"),
                layout: texture_layout(),
                form: ScheduledBindGroupType::ReadOnlyTexture(TextureSource::Unloaded {
                    desc: TextureDescriptor {
                        size: PhysicalSize { width: 1, height: 1 },
                        format: TextureFormat::Rgba8UnormSrgb,
                        usage: TextureUsage {
                            render_attachment: false,
                            texture_binding: true,
                            copy_dst: true,
                        },
                    },
                    sampler,
                    data: None,
                }),
            },
        ],
        textures: Vec::new(),
    };
    let device =
        DeviceReport { textures: Vec::new(), bind_groups: vec![true, true], pipelines: vec![true] };
    desc.finalize(&surface(), &device).unwrap()
}

fn mesh_node() -> DynamicNodeDefinition {
    DynamicNodeDefinition { node: label("meshes"), bind_groups: vec![label("camera")] }
}

fn quad_node() -> DynamicNodeDefinition {
    DynamicNodeDefinition { node: label("quad"), bind_groups: Vec::new() }
}

fn mesh(vertices: usize, stride: usize, tag: u8) -> LiveMesh {
    LiveMesh { vertices: vec![tag; vertices * stride], indices: vec![0, 1, 2] }
}

fn meshes(count: usize, vertices: usize, stride: usize) -> Vec<LiveMesh> {
    let mut live = Vec::new();
    for i in 0..count {
        live.push(mesh(vertices, stride, (i % 256) as u8));
    }
    live
}

fn camera_bytes(dynamic: &DynamicRenderPipeline) -> Vec<u8> {
    match &dynamic.pipeline.source.bind_groups[0].form {
        ScheduledBindGroupType::Uniform { contents } => contents.clone(),
        _ => panic!("the camera is a uniform"),
    }
}

fn contents_of(dynamic: &DynamicRenderPipeline, group: usize) -> Vec<(Vec<u8>, Vec<u32>, u32)> {
    dynamic.pipeline.source.buffers[group]
        .objects
        .iter()
        .map(|o| (o.v_buf.clone(), o.i_buf.clone(), o.num_indices))
        .collect()
}

fn registered() -> DynamicRenderPipeline {
    let mut dynamic = DynamicRenderPipeline::new(compiled());
    dynamic
        .register_shader(
            MESH,
            &mesh_node(),
            RebuildFn { vertex_stride: 12 },
            meshes(2, 3, 12),
            vec![vec![1, 2, 3, 4]],
        )
        .unwrap();
    dynamic
}

#[test]
fn register_feeds_at_once() {
    let dynamic = registered();
    assert_eq!(dynamic.bindings.len(), 1);
    assert_eq!(dynamic.bindings[0].component, MESH);
    assert_eq!(dynamic.bindings[0].buffer_group, 0);
    assert_eq!(dynamic.bindings[0].uniforms, vec![0]);
    assert_eq!(dynamic.pipeline.source.buffers[0].draw_count(), 2);
    assert_eq!(
        contents_of(&dynamic, 0),
        vec![(vec![0u8; 36], vec![0, 1, 2], 3), (vec![1u8; 36], vec![0, 1, 2], 3)]
    );
    assert_eq!(camera_bytes(&dynamic), vec![1, 2, 3, 4]);
    assert_eq!(dynamic.pipeline.source.buffers[1].draw_count(), 0);
}

#[test]
fn register_keeps_labels_and_passes() {
    let dynamic = registered();
    assert!(dynamic.pipeline.source.buffers[0].label.same(&label("meshes")));
    assert_eq!(dynamic.pipeline.source.buffers[0].unique_bind_groups.len(), 1);
    assert_eq!(dynamic.pipeline.pass_count(), 1);
    assert_eq!(dynamic.pipeline.passes[0].bind_groups, vec![0, 1]);
}

#[test]
fn registering_twice_replaces() {
    let mut dynamic = registered();
    dynamic
        .register_shader(QUAD, &quad_node(), RebuildFn { vertex_stride: 4 }, Vec::new(), Vec::new())
        .unwrap();
    dynamic
        .register_shader(
            MESH,
            &mesh_node(),
            RebuildFn { vertex_stride: 6 },
            meshes(1, 2, 6),
            vec![vec![9, 9, 9, 9]],
        )
        .unwrap();
    assert_eq!(dynamic.registered(), vec![MESH, QUAD]);
    assert_eq!(dynamic.bindings[0].rebuild, RebuildFn { vertex_stride: 6 });
    assert_eq!(dynamic.bindings.iter().filter(|b| b.component == MESH).count(), 1);
    assert_eq!(dynamic.pipeline.source.buffers[0].draw_count(), 1);
    assert_eq!(camera_bytes(&dynamic), vec![9, 9, 9, 9]);
    dynamic.rebind(MESH, meshes(1, 5, 6), vec![vec![0, 0, 0, 0]]).unwrap();
    assert_eq!(dynamic.pipeline.source.buffers[0].vertex_count(6), Some(5));
    assert_eq!(
        dynamic.rebind(MESH, meshes(1, 1, 12), vec![vec![0u8; 4]]).map(|_| ()),
        Ok(())
    );
    assert_eq!(
        dynamic.rebind(MESH, vec![LiveMesh { vertices: vec![0u8; 8], indices: Vec::new() }], vec![
            vec![0u8; 4]
        ]),
        Err(PipelineError::LayoutMismatch)
    );
}

#[test]
fn registration_order_is_frame_order() {
    let mut dynamic = DynamicRenderPipeline::new(compiled());
    dynamic
        .register_shader(QUAD, &quad_node(), RebuildFn { vertex_stride: 4 }, Vec::new(), Vec::new())
        .unwrap();
    dynamic
        .register_shader(
            MESH,
            &mesh_node(),
            RebuildFn { vertex_stride: 12 },
            Vec::new(),
            vec![vec![0u8; 4]],
        )
        .unwrap();
    assert_eq!(dynamic.registered(), vec![QUAD, MESH]);
    assert_eq!(dynamic.find_binding(MESH), Some(1));
    assert_eq!(dynamic.find_binding(ComponentType(99)), None);
}

#[test]
fn empty_query_gives_zero_draws() {
    let mut dynamic = registered();
    assert_eq!(dynamic.rebind(MESH, Vec::new(), vec![vec![5, 6, 7, 8]]), Ok(()));
    assert_eq!(dynamic.pipeline.source.buffers[0].draw_count(), 0);
    assert_eq!(dynamic.pipeline.source.buffers[0].vertex_count(12), Some(0));
    assert_eq!(camera_bytes(&dynamic), vec![5, 6, 7, 8]);
    assert_eq!(dynamic.pipeline.pass_count(), 1);
}

#[test]
fn rebuilding_twice_gives_identical_contents() {
    let mut dynamic = registered();
    dynamic.rebind(MESH, meshes(3, 4, 12), vec![vec![4, 3, 2, 1]]).unwrap();
    let once = contents_of(&dynamic, 0);
    let camera = camera_bytes(&dynamic);
    dynamic.rebind(MESH, meshes(3, 4, 12), vec![vec![4, 3, 2, 1]]).unwrap();
    assert_eq!(contents_of(&dynamic, 0), once);
    assert_eq!(camera_bytes(&dynamic), camera);
    assert_eq!(once.len(), 3);
    assert_eq!(once[2], (vec![2u8; 48], vec![0, 1, 2], 3));
}

#[test]
fn vertex_count_matches_live_instances() {
    for count in [0usize, 1, 1000] {
        let mut dynamic = registered();
        dynamic.rebind(MESH, meshes(count, 24, 12), vec![vec![0u8; 4]]).unwrap();
        let group = &dynamic.pipeline.source.buffers[0];
        assert_eq!(group.vertex_count(12), Some(count * 24));
        assert_eq!(group.draw_count(), count);
    }
}

#[test]
fn vertex_count_needs_a_stride() {
    let dynamic = registered();
    assert_eq!(dynamic.pipeline.source.buffers[0].vertex_count(0), None);
    assert_eq!(dynamic.pipeline.source.buffers[0].vertex_count(12), Some(6));
    assert_eq!(dynamic.pipeline.source.buffers[0].vertex_count(36), Some(2));
}

#[test]
fn rebuild_maps_each_mesh_to_one_object() {
    let rebuild = RebuildFn { vertex_stride: 2 };
    let live = vec![
        LiveMesh { vertices: vec![1, 2, 3, 4], indices: vec![0, 1] },
        LiveMesh { vertices: Vec::new(), indices: Vec::new() },
    ];
    let objects = rebuild.rebuild(live).unwrap();
    assert_eq!(objects.len(), 2);
    assert_eq!(objects[0].v_buf, vec![1, 2, 3, 4]);
    assert_eq!(objects[0].i_buf, vec![0, 1]);
    assert_eq!(objects[0].num_indices, 2);
    assert_eq!(objects[1].num_indices, 0);
    assert!(rebuild.rebuild(Vec::new()).unwrap().is_empty());
}

#[test]
fn rebuild_rejects_partial_vertices_and_zero_stride() {
    let odd = vec![LiveMesh { vertices: vec![1, 2, 3], indices: Vec::new() }];
    assert_eq!(
        RebuildFn { vertex_stride: 2 }.rebuild(odd).map(|_| ()),
        Err(PipelineError::LayoutMismatch)
    );
    assert_eq!(
        RebuildFn { vertex_stride: 0 }.rebuild(Vec::new()).map(|_| ()),
        Err(PipelineError::LayoutMismatch)
    );
    assert!(!RebuildFn { vertex_stride: 0 }.fits(&Vec::new()));
    assert!(RebuildFn { vertex_stride: 3 }.fits(&vec![LiveMesh {
        vertices: vec![1, 2, 3],
        indices: Vec::new()
    }]));
}

#[test]
fn unregistered_component_is_rejected() {
    let mut dynamic = registered();
    assert_eq!(
        dynamic.rebind(QUAD, Vec::new(), Vec::new()),
        Err(PipelineError::UnregisteredComponent)
    );
    assert_eq!(dynamic.pipeline.source.buffers[0].draw_count(), 2);
}

#[test]
fn register_rejects_unknown_labels() {
    let mut dynamic = DynamicRenderPipeline::new(compiled());
    let nowhere = DynamicNodeDefinition { node: label("nothing"), bind_groups: Vec::new() };
    assert_eq!(
        dynamic.register_shader(
            MESH,
            &nowhere,
            RebuildFn { vertex_stride: 12 },
            Vec::new(),
            Vec::new()
        ),
        Err(PipelineError::UnknownLabel(Namespace::BufferGroup))
    );
    let no_group =
        DynamicNodeDefinition { node: label("meshes"), bind_groups: vec![label("nothing")] };
    assert_eq!(
        dynamic.register_shader(
            MESH,
            &no_group,
            RebuildFn { vertex_stride: 12 },
            Vec::new(),
            vec![Vec::new()]
        ),
        Err(PipelineError::UnknownLabel(Namespace::BindGroup))
    );
    assert!(dynamic.bindings.is_empty());
}

#[test]
fn register_rejects_what_is_no_uniform() {
    let mut dynamic = DynamicRenderPipeline::new(compiled());
    let sampled =
        DynamicNodeDefinition { node: label("meshes"), bind_groups: vec![label("diffuse")] };
    assert_eq!(
        dynamic.register_shader(
            MESH,
            &sampled,
            RebuildFn { vertex_stride: 12 },
            Vec::new(),
            vec![Vec::new()]
        ),
        Err(PipelineError::LayoutMismatch)
    );
    assert!(dynamic.bindings.is_empty());
}

#[test]
fn payload_of_wrong_length_changes_nothing() {
    let mut dynamic = registered();
    assert_eq!(
        dynamic.rebind(MESH, Vec::new(), vec![vec![1, 2, 3]]),
        Err(PipelineError::LayoutMismatch)
    );
    assert_eq!(dynamic.rebind(MESH, Vec::new(), Vec::new()), Err(PipelineError::LayoutMismatch));
    assert_eq!(dynamic.pipeline.source.buffers[0].draw_count(), 2);
    assert_eq!(camera_bytes(&dynamic), vec![1, 2, 3, 4]);
}

#[test]
fn last_payload_for_a_slot_wins() {
    let mut dynamic = DynamicRenderPipeline::new(compiled());
    let twice = DynamicNodeDefinition {
        node: label("meshes"),
        bind_groups: vec![label("camera"), label("camera")],
    };
    dynamic
        .register_shader(
            MESH,
            &twice,
            RebuildFn { vertex_stride: 12 },
            Vec::new(),
            vec![vec![1, 1, 1, 1], vec![2, 2, 2, 2]],
        )
        .unwrap();
    assert_eq!(camera_bytes(&dynamic), vec![2, 2, 2, 2]);
    assert_eq!(dynamic.bindings[0].uniforms, vec![0, 0]);
}

fn two_registered() -> DynamicRenderPipeline {
    let mut dynamic = registered();
    dynamic
        .register_shader(QUAD, &quad_node(), RebuildFn { vertex_stride: 4 }, Vec::new(), Vec::new())
        .unwrap();
    dynamic
}

#[test]
fn frame_feeds_every_registration_in_order() {
    let mut dynamic = two_registered();
    let inputs = vec![
        fun_lights::frame::FrameInput { live: meshes(3, 2, 12), payloads: vec![vec![8, 8, 8, 8]] },
        fun_lights::frame::FrameInput { live: meshes(1, 4, 4), payloads: Vec::new() },
    ];
    assert_eq!(dynamic.frame(inputs), Ok(()));
    assert_eq!(dynamic.pipeline.source.buffers[0].draw_count(), 3);
    assert_eq!(dynamic.pipeline.source.buffers[0].vertex_count(12), Some(6));
    assert_eq!(dynamic.pipeline.source.buffers[1].draw_count(), 1);
    assert_eq!(dynamic.pipeline.source.buffers[1].vertex_count(4), Some(4));
    assert_eq!(camera_bytes(&dynamic), vec![8, 8, 8, 8]);
    assert_eq!(dynamic.registered(), vec![MESH, QUAD]);
    assert_eq!(dynamic.pipeline.pass_count(), 1);
}

#[test]
fn frame_with_empty_queries_draws_nothing() {
    let mut dynamic = two_registered();
    let inputs = vec![
        fun_lights::frame::FrameInput { live: Vec::new(), payloads: vec![vec![0u8; 4]] },
        fun_lights::frame::FrameInput { live: Vec::new(), payloads: Vec::new() },
    ];
    assert!(dynamic.frame_ready(&inputs));
    assert_eq!(dynamic.frame(inputs), Ok(()));
    assert_eq!(dynamic.pipeline.source.buffers[0].draw_count(), 0);
    assert_eq!(dynamic.pipeline.source.buffers[1].draw_count(), 0);
}

#[test]
fn frame_that_does_not_fit_changes_nothing() {
    let mut dynamic = two_registered();
    let late_fault = vec![
        fun_lights::frame::FrameInput { live: Vec::new(), payloads: vec![vec![7u8; 4]] },
        fun_lights::frame::FrameInput { live: meshes(1, 1, 3), payloads: Vec::new() },
    ];
    assert!(!dynamic.frame_ready(&late_fault));
    assert_eq!(dynamic.frame(late_fault), Err(PipelineError::LayoutMismatch));
    assert_eq!(dynamic.pipeline.source.buffers[0].draw_count(), 2);
    assert_eq!(camera_bytes(&dynamic), vec![1, 2, 3, 4]);
    let too_few =
        vec![fun_lights::frame::FrameInput { live: Vec::new(), payloads: vec![vec![7u8; 4]] }];
    assert_eq!(dynamic.frame(too_few), Err(PipelineError::LayoutMismatch));
    assert_eq!(DynamicRenderPipeline::new(compiled()).frame(Vec::new()), Ok(()));
}
