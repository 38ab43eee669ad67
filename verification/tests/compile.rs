use fun_lights::compile::CompiledPass;
use fun_lights::descriptor::{
    BindingEntry, BindingLayout, BindingType, BufferGroup, ColorTargetState, CompareFunction,
    DepthStencilState, PhysicalSize, PrimitiveTopology, ScheduledBindGroup,
    ScheduledBindGroupType, ScheduledPipelineDescription, ScheduledShaderNodeDescription,
    ScheduledTexture, ShaderDefinition, ShaderStages, SurfaceContext, TextureFormat,
    TextureKind, TextureSource, TextureUsage, DEPTH_FORMAT, RENDER_TARGET_FORMAT,
};
use fun_lights::error::PipelineError;
use fun_lights::label::{Namespace, ShaderLabel};
use fun_lights::pipeline::{every_created, DeviceReport};

fn label(name: &str) -> ShaderLabel {
    ShaderLabel::new(name)
}

fn surface() -> SurfaceContext {
    SurfaceContext {
        size: PhysicalSize { width: 800, height: 600 },
        format: TextureFormat::Bgra8UnormSrgb,
    }
}

fn uniform_layout() -> BindingLayout {
    BindingLayout {
        entries: vec![BindingEntry {
            visibility: ShaderStages::Vertex,
            ty: BindingType::UniformBuffer,
        }],
    }
}

fn sampled_layout() -> BindingLayout {
    BindingLayout {
        entries: vec![
            BindingEntry {
                visibility: ShaderStages::Fragment,
                ty: BindingType::Texture { filterable: false },
            },
            BindingEntry {
                visibility: ShaderStages::Fragment,
                ty: BindingType::Sampler { filtering: false },
            },
        ],
    }
}

fn buffer(name: &str) -> BufferGroup {
    BufferGroup { label: label(name), objects: Vec::new(), unique_bind_groups: Vec::new() }
}

fn camera_group() -> ScheduledBindGroup {
    ScheduledBindGroup {
        label: label("camera"),
        layout: uniform_layout(),
        form: ScheduledBindGroupType::Uniform { contents: vec![0u8; 64] },
    }
}

fn normal_group() -> ScheduledBindGroup {
    ScheduledBindGroup {
        label: label("g-normal"),
        layout: sampled_layout(),
        form: ScheduledBindGroupType::ReadOnlyTexture(TextureSource::Declared(label("g-normal"))),
    }
}

fn geometry_node() -> ScheduledShaderNodeDescription {
    ScheduledShaderNodeDescription {
        buffer_group: label("meshes"),
        bind_groups: vec![label("camera")],
        targets: Some(vec![label("g-normal")]),
        depth: None,
        shader: ShaderDefinition {
            shader_source: String::from("geometry"),
            bg_layouts: vec![uniform_layout()],
            vertex_stride: 36,
            primitive_state: PrimitiveTopology::TriangleList,
            depth_stencil: None,
            targets: vec![ColorTargetState { format: RENDER_TARGET_FORMAT, blend: None }],
        },
    }
}

fn composite_node() -> ScheduledShaderNodeDescription {
    ScheduledShaderNodeDescription {
        buffer_group: label("quad"),
        bind_groups: vec![label("g-normal")],
        targets: None,
        depth: None,
        shader: ShaderDefinition {
            shader_source: String::from("composite"),
            bg_layouts: vec![sampled_layout()],
            vertex_stride: 16,
            primitive_state: PrimitiveTopology::TriangleList,
            depth_stencil: None,
            targets: vec![ColorTargetState { format: TextureFormat::Bgra8UnormSrgb, blend: None }],
        },
    }
}

fn two_pass() -> ScheduledPipelineDescription {
    ScheduledPipelineDescription {
        shader_nodes: vec![geometry_node(), composite_node()],
        buffers: vec![buffer("meshes"), buffer("quad")],
        bind_groups: vec![camera_group(), normal_group()],
        textures: vec![ScheduledTexture::render_target(
            label("g-normal"),
            PhysicalSize { width: 1920, height: 1080 },
        )],
    }
}

fn created(textures: usize, bind_groups: usize, pipelines: usize) -> DeviceReport {
    DeviceReport {
        textures: vec![true; textures],
        bind_groups: vec![true; bind_groups],
        pipelines: vec![true; pipelines],
    }
}

fn error_of(desc: ScheduledPipelineDescription, device: &DeviceReport) -> PipelineError {
    match desc.finalize(&surface(), device) {
        Ok(_) => panic!("the description compiled"),
        Err(e) => e,
    }
}

fn pass_fields(pass: &CompiledPass) -> (usize, Vec<usize>, Option<Vec<usize>>, Option<usize>) {
    (pass.buffer_group, pass.bind_groups.clone(), pass.targets.clone(), pass.depth)
}

#[test]
fn two_pass_pipeline_compiles_in_declared_order() {
    let compiled = two_pass().finalize(&surface(), &created(1, 2, 2)).unwrap();
    assert_eq!(compiled.pass_count(), 2);
    assert_eq!(pass_fields(&compiled.passes[0]), (0, vec![0], Some(vec![0]), None));
    assert_eq!(pass_fields(&compiled.passes[1]), (1, vec![1], None, None));
    assert_eq!(compiled.source.shader_nodes[0].shader.shader_source, "geometry");
    assert_eq!(compiled.source.shader_nodes[1].shader.shader_source, "composite");
}

#[test]
fn output_of_first_pass_backs_input_of_second() {
    let compiled = two_pass().finalize(&surface(), &created(1, 2, 2)).unwrap();
    let written = compiled.passes[0].targets.clone().unwrap();
    let read = compiled.passes[1].bind_groups[0];
    assert_eq!(compiled.sampled, vec![None, Some(0)]);
    assert_eq!(compiled.sampled[read], Some(written[0]));
    assert!(compiled.source.textures[written[0]].label.same(&label("g-normal")));
    match &compiled.source.bind_groups[0].form {
        ScheduledBindGroupType::Uniform { contents } => assert_eq!(contents.len(), 64),
        _ => panic!("the camera is a uniform"),
    }
}

#[test]
fn pass_count_equals_node_count() {
    for count in [0usize, 1, 5] {
        let mut desc = ScheduledPipelineDescription {
            shader_nodes: Vec::new(),
            buffers: vec![buffer("meshes")],
            bind_groups: vec![camera_group()],
            textures: Vec::new(),
        };
        for _ in 0..count {
            let mut node = geometry_node();
            node.targets = None;
            node.shader.targets =
                vec![ColorTargetState { format: TextureFormat::Bgra8UnormSrgb, blend: None }];
            desc.shader_nodes.push(node);
        }
        let compiled = desc.finalize(&surface(), &created(0, 1, count)).unwrap();
        assert_eq!(compiled.pass_count(), count);
        assert_eq!(compiled.passes.len(), compiled.source.shader_nodes.len());
    }
}

#[test]
fn attachments_and_loaded_textures_get_their_usages() {
    let mut desc = two_pass();
    desc.textures.push(ScheduledTexture::depth(
        label("depth"),
        PhysicalSize { width: 1920, height: 1080 },
    ));
    desc.textures.push(ScheduledTexture {
        label: label("diffuse"),
        size: PhysicalSize { width: 1, height: 1 },
        format: TextureFormat::Rgba8UnormSrgb,
        kind: TextureKind::Unloaded { data: Some(vec![255, 0, 0, 0]) },
    });
    let compiled = desc.finalize(&surface(), &created(3, 2, 2)).unwrap();
    let attachment =
        TextureUsage { render_attachment: true, texture_binding: true, copy_dst: false };
    let loaded = TextureUsage { render_attachment: false, texture_binding: true, copy_dst: true };
    assert_eq!(compiled.usages, vec![attachment, attachment, loaded]);
    assert_eq!(compiled.source.textures[1].format, DEPTH_FORMAT);
}

#[test]
fn duplicate_buffer_label_is_rejected() {
    let mut desc = two_pass();
    desc.buffers.push(buffer("meshes"));
    assert_eq!(
        error_of(desc, &created(1, 2, 2)),
        PipelineError::DuplicateLabel(Namespace::BufferGroup)
    );
}

#[test]
fn duplicate_bind_group_label_is_rejected() {
    let mut desc = two_pass();
    desc.bind_groups.push(camera_group());
    assert_eq!(
        error_of(desc, &created(1, 3, 2)),
        PipelineError::DuplicateLabel(Namespace::BindGroup)
    );
}

#[test]
fn duplicate_texture_label_is_rejected() {
    let mut desc = two_pass();
    desc.textures.push(ScheduledTexture::depth(
        label("g-normal"),
        PhysicalSize { width: 4, height: 4 },
    ));
    assert_eq!(
        error_of(desc, &created(2, 2, 2)),
        PipelineError::DuplicateLabel(Namespace::Texture)
    );
}

#[test]
fn duplicate_is_found_without_a_device() {
    let mut desc = two_pass();
    desc.bind_groups.push(camera_group());
    assert_eq!(
        desc.validate(&surface()),
        Err(PipelineError::DuplicateLabel(Namespace::BindGroup))
    );
    assert_eq!(
        error_of(desc, &created(0, 0, 0)),
        PipelineError::DuplicateLabel(Namespace::BindGroup)
    );
}

#[test]
fn same_label_in_two_namespaces_is_no_duplicate() {
    assert_eq!(two_pass().validate(&surface()), Ok(()));
}

#[test]
fn reversed_passes_are_rejected() {
    let mut desc = two_pass();
    desc.shader_nodes.reverse();
    assert_eq!(error_of(desc, &created(1, 2, 2)), PipelineError::ReadBeforeWrite);
}

#[test]
fn sampling_a_target_nobody_writes_is_rejected() {
    let mut desc = two_pass();
    desc.shader_nodes[0].targets = None;
    desc.shader_nodes[0].shader.targets =
        vec![ColorTargetState { format: TextureFormat::Bgra8UnormSrgb, blend: None }];
    assert_eq!(error_of(desc, &created(1, 2, 2)), PipelineError::ReadBeforeWrite);
}

#[test]
fn unknown_buffer_group_is_rejected() {
    let mut desc = two_pass();
    desc.shader_nodes[0].buffer_group = label("nothing");
    assert_eq!(
        error_of(desc, &created(1, 2, 2)),
        PipelineError::UnknownLabel(Namespace::BufferGroup)
    );
}

#[test]
fn unknown_bind_group_is_rejected() {
    let mut desc = two_pass();
    desc.shader_nodes[0].bind_groups = vec![label("nothing")];
    assert_eq!(
        error_of(desc, &created(1, 2, 2)),
        PipelineError::UnknownLabel(Namespace::BindGroup)
    );
}

#[test]
fn unknown_unique_bind_group_is_rejected() {
    let mut desc = two_pass();
    desc.buffers[0].unique_bind_groups = vec![label("nothing")];
    assert_eq!(
        error_of(desc, &created(1, 2, 2)),
        PipelineError::UnknownLabel(Namespace::BindGroup)
    );
}

#[test]
fn unknown_target_is_rejected() {
    let mut desc = two_pass();
    desc.shader_nodes[0].targets = Some(vec![label("nothing")]);
    assert_eq!(
        error_of(desc, &created(1, 2, 2)),
        PipelineError::UnknownLabel(Namespace::Texture)
    );
}

#[test]
fn unknown_sampled_texture_is_rejected() {
    let mut desc = two_pass();
    desc.bind_groups[1].form =
        ScheduledBindGroupType::ReadOnlyTexture(TextureSource::Declared(label("nothing")));
    assert_eq!(
        error_of(desc, &created(1, 2, 2)),
        PipelineError::UnknownLabel(Namespace::Texture)
    );
}

#[test]
fn depth_texture_as_colour_target_is_rejected() {
    let mut desc = two_pass();
    desc.textures[0].kind = TextureKind::DepthAttachment;
    assert_eq!(
        error_of(desc, &created(1, 2, 2)),
        PipelineError::UnknownLabel(Namespace::Texture)
    );
}

#[test]
fn layout_mismatch_is_rejected() {
    let mut desc = two_pass();
    desc.shader_nodes[0].shader.bg_layouts = vec![sampled_layout()];
    assert_eq!(error_of(desc, &created(1, 2, 2)), PipelineError::LayoutMismatch);
    let mut short = two_pass();
    short.shader_nodes[1].shader.bg_layouts = Vec::new();
    assert_eq!(error_of(short, &created(1, 2, 2)), PipelineError::LayoutMismatch);
}

#[test]
fn format_mismatch_is_rejected() {
    let mut desc = two_pass();
    desc.shader_nodes[0].shader.targets =
        vec![ColorTargetState { format: TextureFormat::Rgba8UnormSrgb, blend: None }];
    assert_eq!(error_of(desc, &created(1, 2, 2)), PipelineError::FormatMismatch);
    let mut surface_format = two_pass();
    surface_format.shader_nodes[1].shader.targets =
        vec![ColorTargetState { format: RENDER_TARGET_FORMAT, blend: None }];
    assert_eq!(error_of(surface_format, &created(1, 2, 2)), PipelineError::FormatMismatch);
}

#[test]
fn depth_state_without_depth_texture_is_rejected() {
    let mut desc = two_pass();
    desc.shader_nodes[0].shader.depth_stencil = Some(DepthStencilState {
        format: TextureFormat::Depth32Float,
        depth_write_enabled: true,
        depth_compare: CompareFunction::LessEqual,
    });
    assert_eq!(error_of(desc, &created(1, 2, 2)), PipelineError::FormatMismatch);
}

#[test]
fn depth_attachment_compiles() {
    let mut desc = two_pass();
    desc.textures.push(ScheduledTexture::depth(
        label("depth"),
        PhysicalSize { width: 1920, height: 1080 },
    ));
    desc.shader_nodes[0].depth = Some(label("depth"));
    desc.shader_nodes[0].shader.depth_stencil = Some(DepthStencilState {
        format: TextureFormat::Depth32Float,
        depth_write_enabled: true,
        depth_compare: CompareFunction::LessEqual,
    });
    let compiled = desc.finalize(&surface(), &created(2, 2, 2)).unwrap();
    assert_eq!(pass_fields(&compiled.passes[0]), (0, vec![0], Some(vec![0]), Some(1)));
}

#[test]
fn device_failure_is_reported() {
    let mut device = created(1, 2, 2);
    device.bind_groups[1] = false;
    assert_eq!(error_of(two_pass(), &device), PipelineError::DeviceResourceFailure);
    assert_eq!(error_of(two_pass(), &created(1, 2, 1)), PipelineError::DeviceResourceFailure);
    assert_eq!(error_of(two_pass(), &created(1, 2, 3)), PipelineError::DeviceResourceFailure);
}

#[test]
fn fault_of_description_comes_before_device_failure() {
    let mut desc = two_pass();
    desc.shader_nodes.reverse();
    assert_eq!(error_of(desc, &created(0, 0, 0)), PipelineError::ReadBeforeWrite);
}

#[test]
fn first_faulty_pass_decides() {
    let mut desc = two_pass();
    desc.shader_nodes[0].shader.bg_layouts = vec![sampled_layout()];
    desc.shader_nodes[1].buffer_group = label("nothing");
    assert_eq!(error_of(desc, &created(1, 2, 2)), PipelineError::LayoutMismatch);
}

#[test]
fn every_created_wants_exactly_as_many_answers() {
    assert!(every_created(&vec![true, true], 2));
    assert!(!every_created(&vec![true, false], 2));
    assert!(!every_created(&vec![true], 2));
    assert!(every_created(&Vec::new(), 0));
}

#[test]
fn layouts_match_entry_by_entry() {
    assert!(uniform_layout().matches(&uniform_layout()));
    assert!(!uniform_layout().matches(&sampled_layout()));
    let mut other = sampled_layout();
    other.entries[1].ty = BindingType::Sampler { filtering: true };
    assert!(!sampled_layout().matches(&other));
}
