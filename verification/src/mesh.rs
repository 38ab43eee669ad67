//! Joining the sections of a model into one mesh: how many vertices each
//! section gives, and the indices of all sections moved past the vertices of
//! the sections before them.

use vstd::prelude::*;

verus! {

/// What joining needs to know of one section of a model: how many
/// coordinates it holds of each attribute, its indices, and its material.
#[derive(Debug)]
pub struct ModelSection {
    pub positions: usize,
    pub texcoords: usize,
    pub normals: usize,
    pub indices: Vec<u32>,
    pub material_id: Option<usize>,
}

/// Where each section's vertices go in the joined mesh, and its indices.
#[derive(Debug)]
pub struct MergedMesh {
    /// For each section, the number of vertices that it gives.
    pub vertex_counts: Vec<u32>,
    /// For each section, the material of its vertices; zero where it gives
    /// none.
    pub materials: Vec<u32>,
    /// The indices of all sections, in order.
    pub indices: Vec<u32>,
}

/// Why sections cannot be joined.
#[derive(Clone, Copy, Debug, PartialEq, Eq, Structural)]
pub enum MeshError {
    /// A section gives vertices and names no material.
    MissingMaterial,
    /// A vertex count, a material or a moved index cannot be written in 32
    /// bits.
    Overflow,
}

/// The smaller of two numbers.
pub open spec fn lesser(a: int, b: int) -> int {
    if a <= b {
        a
    } else {
        b
    }
}

impl ModelSection {
    /// The number of vertices that the section gives: as many as it has
    /// whole positions, texture coordinates and normals, three, two and
    /// three numbers each.
    pub open spec fn vertex_count(&self) -> int {
        lesser(
            lesser(self.positions as int / 3, self.texcoords as int / 2),
            self.normals as int / 3,
        )
    }

    /// The material of the section's vertices; zero where it gives none.
    pub open spec fn material(&self) -> int {
        match self.material_id {
            Some(m) => m as int,
            None => 0,
        }
    }

    /// The number of vertices that the section gives.
    pub fn count_vertices(&self) -> (count: usize)
        ensures
            count == self.vertex_count(),
    {
        let positions = self.positions / 3;
        let texcoords = self.texcoords / 2;
        let normals = self.normals / 3;
        let least = if positions <= texcoords {
            positions
        } else {
            texcoords
        };
        if least <= normals {
            least
        } else {
            normals
        }
    }
}

/// The number of vertices that the first `n` sections give together.
pub open spec fn vertices_before(sections: Seq<ModelSection>, n: int) -> int
    decreases n,
{
    if n <= 0 {
        0
    } else {
        vertices_before(sections, n - 1) + sections[n - 1].vertex_count()
    }
}

/// The indices of the first `n` sections, each moved past the vertices of
/// the sections before its own.
pub open spec fn indices_before(sections: Seq<ModelSection>, n: int) -> Seq<int>
    decreases n,
{
    if n <= 0 {
        Seq::empty()
    } else {
        indices_before(sections, n - 1) + Seq::new(
            sections[n - 1].indices@.len(),
            |k: int| sections[n - 1].indices@[k] + vertices_before(sections, n - 1),
        )
    }
}

/// Section `s` can be joined to the sections before it: it names a material
/// where it gives vertices, and its material, the vertices up to and with
/// its own, and its moved indices can be written in 32 bits.
pub open spec fn section_joins(sections: Seq<ModelSection>, s: int) -> bool {
    &&& sections[s].vertex_count() > 0 ==> sections[s].material_id is Some
    &&& sections[s].vertex_count() > 0 ==> sections[s].material() <= u32::MAX
    &&& vertices_before(sections, s + 1) <= u32::MAX
    &&& forall|k: int|
        0 <= k < sections[s].indices@.len() ==> #[trigger] sections[s].indices@[k]
            + vertices_before(sections, s) <= u32::MAX
}

/// What is wrong with section `s`, if anything: a missing material first,
/// then a number that does not fit.
pub open spec fn section_fault(sections: Seq<ModelSection>, s: int) -> Option<MeshError> {
    if sections[s].vertex_count() > 0 && sections[s].material_id is None {
        Some(MeshError::MissingMaterial)
    } else if !section_joins(sections, s) {
        Some(MeshError::Overflow)
    } else {
        None
    }
}

/// The fault of the first faulty section among the first `n`.
pub open spec fn first_section_fault(sections: Seq<ModelSection>, n: int) -> Option<MeshError>
    decreases n,
{
    if n <= 0 {
        None
    } else {
        match first_section_fault(sections, n - 1) {
            Some(e) => Some(e),
            None => section_fault(sections, n - 1),
        }
    }
}

/// Once a section is faulty, the first fault no longer changes.
pub proof fn lemma_section_fault_stays(sections: Seq<ModelSection>, m: int, n: int)
    requires
        0 <= m <= n,
        first_section_fault(sections, m) is Some,
    ensures
        first_section_fault(sections, n) == first_section_fault(sections, m),
    decreases n - m,
{
    if m < n {
        lemma_section_fault_stays(sections, m, n - 1);
    }
}

/// The joined mesh holds, for each section, its number of vertices and its
/// material, and the moved indices of all sections.
pub open spec fn joins(sections: Seq<ModelSection>, mesh: MergedMesh) -> bool {
    &&& mesh.vertex_counts@.len() == sections.len()
    &&& mesh.materials@.len() == sections.len()
    &&& forall|s: int|
        0 <= s < sections.len() ==> #[trigger] mesh.vertex_counts@[s] as int
            == sections[s].vertex_count()
    &&& forall|s: int|
        0 <= s < sections.len() ==> #[trigger] mesh.materials@[s] as int == if sections[s].vertex_count()
            > 0 {
            sections[s].material()
        } else {
            0
        }
    &&& mesh.indices@.map_values(|i: u32| i as int) == indices_before(
        sections,
        sections.len() as int,
    )
}

/// Joins the sections of a model: the vertices of each section follow those
/// of the sections before it, and its indices are moved accordingly. Fails
/// at the first section that cannot be joined.
pub fn load_mesh_from_model(sections: &Vec<ModelSection>) -> (outcome: Result<
    MergedMesh,
    MeshError,
>)
    ensures
        match outcome {
            Ok(mesh) => first_section_fault(sections@, sections@.len() as int) is None && joins(
                sections@,
                mesh,
            ),
            Err(e) => first_section_fault(sections@, sections@.len() as int) == Some(e),
        },
{
    let mut vertex_counts: Vec<u32> = Vec::new();
    let mut materials: Vec<u32> = Vec::new();
    let mut indices: Vec<u32> = Vec::new();
    let mut index_offset: u32 = 0;
    let mut s: usize = 0;
    while s < sections.len()
        invariant
            s <= sections.len(),
            first_section_fault(sections@, s as int) is None,
            index_offset as int == vertices_before(sections@, s as int),
            vertex_counts@.len() == s,
            materials@.len() == s,
            forall|t: int|
                0 <= t < s ==> #[trigger] vertex_counts@[t] as int == sections@[t].vertex_count(),
            forall|t: int|
                0 <= t < s ==> #[trigger] materials@[t] as int == if sections@[t].vertex_count()
                    > 0 {
                    sections@[t].material()
                } else {
                    0
                },
            indices@.map_values(|i: u32| i as int) == indices_before(sections@, s as int),
        decreases sections.len() - s,
    {
        let section = &sections[s];
        let count = section.count_vertices();
        let ghost all = sections@;
        let material: u32 = if count > 0 {
            match section.material_id {
                Some(m) => {
                    if m > 0xffff_ffff {
                        proof {
                            assert(section_fault(all, s as int) == Some(MeshError::Overflow));
                            lemma_section_fault_stays(all, s as int + 1, all.len() as int);
                        }
                        return Err(MeshError::Overflow);
                    }
                    m as u32
                },
                None => {
                    proof {
                        lemma_section_fault_stays(all, s as int + 1, all.len() as int);
                    }
                    return Err(MeshError::MissingMaterial);
                },
            }
        } else {
            0
        };
        if count > 0xffff_ffff - index_offset as usize {
            proof {
                assert(vertices_before(all, s as int + 1) > u32::MAX);
                assert(section_fault(all, s as int) == Some(MeshError::Overflow));
                lemma_section_fault_stays(all, s as int + 1, all.len() as int);
            }
            return Err(MeshError::Overflow);
        }
        let ghost start = indices@;
        let mut k: usize = 0;
        while k < section.indices.len()
            invariant
                k <= section.indices.len(),
                s < sections.len(),
                all == sections@,
                *section == all[s as int],
                index_offset as int == vertices_before(all, s as int),
                indices@.len() == start.len() + k,
                forall|j: int| 0 <= j < start.len() ==> indices@[j] == start[j],
                forall|j: int|
                    0 <= j < k ==> #[trigger] indices@[start.len() + j] as int
                        == section.indices@[j] + index_offset,
                forall|j: int|
                    0 <= j < k ==> #[trigger] section.indices@[j] + index_offset <= u32::MAX,
                first_section_fault(all, s as int) is None,
                section.vertex_count() > 0 ==> section.material_id is Some,
                section.vertex_count() > 0 ==> section.material() <= u32::MAX,
                vertices_before(all, s as int + 1) <= u32::MAX,
            decreases section.indices.len() - k,
        {
            let index = section.indices[k];
            if index > 0xffff_ffff - index_offset {
                proof {
                    assert(all[s as int].indices@[k as int] + vertices_before(all, s as int)
                        > u32::MAX);
                    assert(!section_joins(all, s as int));
                    assert(section_fault(all, s as int) == Some(MeshError::Overflow));
                    lemma_section_fault_stays(all, s as int + 1, all.len() as int);
                }
                return Err(MeshError::Overflow);
            }
            indices.push(index + index_offset);
            k += 1;
        }
        proof {
            assert(section_joins(all, s as int));
            assert(section_fault(all, s as int) is None);
            let moved = Seq::new(
                all[s as int].indices@.len(),
                |j: int| all[s as int].indices@[j] + vertices_before(all, s as int),
            );
            let joined = indices@.map_values(|i: u32| i as int);
            let earlier = start.map_values(|i: u32| i as int);
            assert(joined.len() == earlier.len() + moved.len());
            assert forall|j: int| 0 <= j < joined.len() implies joined[j] == (earlier + moved)[j] by {
                if j >= start.len() {
                    let m = j - start.len();
                    assert(indices@[start.len() + m] as int == section.indices@[m]
                        + index_offset);
                }
            }
            assert(joined =~= earlier + moved);
        }
        vertex_counts.push(count as u32);
        materials.push(material);
        index_offset = index_offset + count as u32;
        s += 1;
    }
    Ok(MergedMesh { vertex_counts, materials, indices })
}

} // verus!
