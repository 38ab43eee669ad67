use fun_lights::mesh::{load_mesh_from_model, MeshError, ModelSection};

fn section(vertices: usize, indices: Vec<u32>, material: Option<usize>) -> ModelSection {
    ModelSection {
        positions: vertices * 3,
        texcoords: vertices * 2,
        normals: vertices * 3,
        indices,
        material_id: material,
    }
}

#[test]
fn indices_move_past_earlier_vertices() {
    let sections = vec![
        section(4, vec![0, 1, 2, 2, 3, 0], Some(0)),
        section(3, vec![0, 1, 2], Some(5)),
        section(2, vec![1, 0], Some(1)),
    ];
    let mesh = load_mesh_from_model(&sections).unwrap();
    assert_eq!(mesh.vertex_counts, vec![4, 3, 2]);
    assert_eq!(mesh.materials, vec![0, 5, 1]);
    assert_eq!(mesh.indices, vec![0, 1, 2, 2, 3, 0, 4, 5, 6, 8, 7]);
}

#[test]
fn no_section_gives_empty_mesh() {
    let mesh = load_mesh_from_model(&Vec::new()).unwrap();
    assert!(mesh.vertex_counts.is_empty());
    assert!(mesh.materials.is_empty());
    assert!(mesh.indices.is_empty());
}

#[test]
fn shortest_attribute_decides_vertex_count() {
    let short = ModelSection {
        positions: 10,
        texcoords: 5,
        normals: 9,
        indices: vec![1],
        material_id: Some(2),
    };
    assert_eq!(short.count_vertices(), 2);
    let sections = vec![short, section(1, vec![0], Some(3))];
    let mesh = load_mesh_from_model(&sections).unwrap();
    assert_eq!(mesh.vertex_counts, vec![2, 1]);
    assert_eq!(mesh.indices, vec![1, 2]);
}

#[test]
fn section_without_vertices_needs_no_material() {
    let sections = vec![section(0, vec![7], None), section(2, vec![0, 1], Some(4))];
    let mesh = load_mesh_from_model(&sections).unwrap();
    assert_eq!(mesh.vertex_counts, vec![0, 2]);
    assert_eq!(mesh.materials, vec![0, 4]);
    assert_eq!(mesh.indices, vec![7, 0, 1]);
}

#[test]
fn missing_material_is_rejected() {
    let sections = vec![section(1, vec![0], Some(0)), section(1, vec![0], None)];
    assert_eq!(load_mesh_from_model(&sections).map(|_| ()), Err(MeshError::MissingMaterial));
}

#[test]
fn index_past_32_bits_is_rejected() {
    let sections = vec![section(2, vec![0], Some(0)), section(1, vec![u32::MAX - 1], Some(0))];
    assert_eq!(load_mesh_from_model(&sections).map(|_| ()), Err(MeshError::Overflow));
    let fits = vec![section(2, vec![0], Some(0)), section(1, vec![u32::MAX - 2], Some(0))];
    assert_eq!(load_mesh_from_model(&fits).unwrap().indices, vec![0, u32::MAX]);
}

#[test]
fn first_faulty_section_decides() {
    let sections = vec![
        section(1, vec![u32::MAX], Some(0)),
        section(1, vec![u32::MAX], Some(0)),
        section(1, vec![0], None),
    ];
    assert_eq!(load_mesh_from_model(&sections).map(|_| ()), Err(MeshError::Overflow));
    let sections = vec![section(1, vec![0], None), section(1, vec![u32::MAX], Some(0))];
    assert_eq!(load_mesh_from_model(&sections).map(|_| ()), Err(MeshError::MissingMaterial));
}
