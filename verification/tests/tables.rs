use fun_lights::def_render::{
    camera_buffer_label, default_render_target, deferred_description, g_albedo_label,
    g_depth_label, g_normal_label, g_position_label, mesh_buffer_label,
    screen_quad_buffer_label, texture_buffer_label,
};
use fun_lights::descriptor::{
    PhysicalSize, ScheduledBindGroupType, ScheduledPipelineDescription, SurfaceContext,
    TextureFormat, TextureUsage,
};
use fun_lights::error::PipelineError;
use fun_lights::label::{Namespace, ShaderLabel};
use fun_lights::pipeline::DeviceReport;
use fun_lights::rebuild::{LiveMesh, RebuildFn};
use fun_lights::resolve::resolve_all;
use fun_lights::visual::{mesh_camera_label, mesh_texture_label};

fn surface() -> SurfaceContext {
    SurfaceContext {
        size: PhysicalSize { width: 640, height: 480 },
        format: TextureFormat::Rgba8UnormSrgb,
    }
}

fn deferred() -> ScheduledPipelineDescription {
    deferred_description(String::from("g"), String::from("c"), 16, vec![0u8; 64], &surface()).0
}

fn names(labels: &[ShaderLabel]) -> Vec<String> {
    labels.iter().map(|l| l.0.clone()).collect()
}

#[test]
fn labels_carry_their_names() {
    assert_eq!(mesh_buffer_label().0, "mesh-buffer");
    assert_eq!(camera_buffer_label().0, "camera-uniform");
    assert_eq!(texture_buffer_label().0, "texture-buffer");
    assert_eq!(g_position_label().0, "g-position-buffer");
    assert_eq!(g_albedo_label().0, "g-albedo-buffer");
    assert_eq!(g_normal_label().0, "g-normal-buffer");
    assert_eq!(g_depth_label().0, "g-depth-buffer");
    assert_eq!(screen_quad_buffer_label().0, "screen-quad-buffer");
    assert_eq!(fun_lights::visual::mesh_buffer_label().0, "mesh-buffer");
    assert_eq!(mesh_camera_label().0, "mesh-camera");
    assert_eq!(mesh_texture_label().0, "mesh-texture");
    assert!(g_normal_label().same(&g_normal_label().clone()));
    assert!(!g_normal_label().same(&g_albedo_label()));
}

#[test]
fn label_tables_follow_declaration_order() {
    let desc = deferred();
    assert_eq!(names(&desc.buffer_labels()), vec!["mesh-buffer", "screen-quad-buffer"]);
    assert_eq!(
        names(&desc.bind_group_labels()),
        vec![
            "camera-uniform",
            "texture-buffer",
            "g-normal-buffer",
            "g-albedo-buffer",
            "g-position-buffer"
        ]
    );
    assert_eq!(
        names(&desc.texture_labels()),
        vec!["g-depth-buffer", "g-normal-buffer", "g-albedo-buffer", "g-position-buffer"]
    );
}

#[test]
fn resolve_all_gives_indices_in_asking_order() {
    let table = deferred().bind_group_labels();
    let wanted = vec![g_position_label(), camera_buffer_label(), g_position_label()];
    assert_eq!(resolve_all(&table, &wanted), Some(vec![4, 0, 4]));
    assert_eq!(resolve_all(&table, &Vec::new()), Some(Vec::new()));
    assert_eq!(resolve_all(&table, &vec![camera_buffer_label(), g_depth_label()]), None);
}

#[test]
fn resolve_gives_passes_and_sampled_textures() {
    let resolution = deferred().resolve(&surface()).unwrap();
    assert_eq!(resolution.passes.len(), 2);
    assert_eq!(resolution.passes[0].targets, Some(vec![1, 2, 3]));
    assert_eq!(resolution.passes[1].bind_groups, vec![2, 3, 4]);
    assert_eq!(resolution.sampled, vec![None, None, Some(1), Some(2), Some(3)]);
    let mut broken = deferred();
    broken.textures.remove(3);
    assert_eq!(
        broken.resolve(&surface()).map(|_| ()),
        Err(PipelineError::UnknownLabel(Namespace::Texture))
    );
}

#[test]
fn device_report_must_cover_the_description() {
    let desc = deferred();
    let full = DeviceReport {
        textures: vec![true; 4],
        bind_groups: vec![true; 5],
        pipelines: vec![true; 2],
    };
    assert!(full.complete_for(&desc));
    let short = DeviceReport {
        textures: vec![true; 4],
        bind_groups: vec![true; 5],
        pipelines: vec![true, false],
    };
    assert!(!short.complete_for(&desc));
}

#[test]
fn g_buffer_textures_are_attachments() {
    let attachment =
        TextureUsage { render_attachment: true, texture_binding: true, copy_dst: false };
    assert_eq!(deferred().texture_usages(), vec![attachment; 4]);
}

#[test]
fn surface_target_takes_the_surface_format() {
    let target = default_render_target(&surface());
    assert_eq!(target.format, TextureFormat::Rgba8UnormSrgb);
    assert_eq!(target.blend, None);
}

#[test]
fn feed_replaces_objects_and_uniform_contents() {
    let device = DeviceReport {
        textures: vec![true; 4],
        bind_groups: vec![true; 5],
        pipelines: vec![true; 2],
    };
    let mut compiled = deferred().finalize(&surface(), &device).unwrap();
    let live = vec![LiveMesh { vertices: vec![4u8; 8], indices: vec![0, 1, 2] }];
    let rebuild = RebuildFn { vertex_stride: 4 };
    assert_eq!(compiled.feed(1, &vec![0], &rebuild, live, vec![vec![6u8; 64]]), Ok(()));
    assert_eq!(compiled.source.buffers[1].objects.len(), 1);
    assert_eq!(compiled.source.buffers[1].objects[0].v_buf, vec![4u8; 8]);
    assert_eq!(compiled.source.buffers[1].objects[0].num_indices, 3);
    assert!(compiled.source.buffers[0].objects.is_empty());
    match &compiled.source.bind_groups[0].form {
        ScheduledBindGroupType::Uniform { contents } => assert_eq!(contents, &vec![6u8; 64]),
        _ => panic!("the camera is a uniform"),
    }
    assert_eq!(
        compiled.feed(1, &vec![0], &rebuild, Vec::new(), vec![vec![6u8; 63]]),
        Err(PipelineError::LayoutMismatch)
    );
    assert_eq!(compiled.source.buffers[1].objects.len(), 1);
    assert_eq!(compiled.pass_count(), 2);
}
