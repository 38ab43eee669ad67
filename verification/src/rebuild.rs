//! Turning live component data into the objects of a buffer group.

use vstd::prelude::*;
use crate::descriptor::{BufferGroup, MeshData};
use crate::error::PipelineError;

verus! {

/// One live mesh as the simulation holds it at this moment: its vertices as
/// bytes, and its indices.
#[derive(Debug)]
pub struct LiveMesh {
    pub vertices: Vec<u8>,
    pub indices: Vec<u32>,
}

/// How the live instances of a component type become the objects of a buffer
/// group: each instance gives one object, whose vertices are `vertex_stride`
/// bytes each.
#[derive(Clone, Copy, Debug, PartialEq, Eq, Structural)]
pub struct RebuildFn {
    pub vertex_stride: usize,
}

/// The object that a live mesh becomes.
pub open spec fn mesh_data(mesh: LiveMesh) -> MeshData {
    MeshData {
        v_buf: mesh.vertices,
        i_buf: mesh.indices,
        num_indices: mesh.indices@.len() as u32,
    }
}

/// The objects that a list of live meshes becomes: one for each, in order.
pub open spec fn rebuilt(live: Seq<LiveMesh>) -> Seq<MeshData> {
    Seq::new(live.len(), |i: int| mesh_data(live[i]))
}

/// The number of vertices in the first `n` objects, at `stride` bytes each.
pub open spec fn vertices_in(objects: Seq<MeshData>, stride: int, n: int) -> int
    decreases n,
{
    if n <= 0 {
        0
    } else {
        vertices_in(objects, stride, n - 1) + (objects[n - 1].v_buf@.len() as int) / stride
    }
}

/// The number of vertices grows with the number of objects counted.
pub proof fn lemma_vertices_grow(objects: Seq<MeshData>, stride: int, m: int, n: int)
    requires
        0 <= m <= n,
        stride > 0,
    ensures
        0 <= vertices_in(objects, stride, m) <= vertices_in(objects, stride, n),
    decreases n,
{
    if n > 0 {
        if m < n {
            lemma_vertices_grow(objects, stride, m, n - 1);
        } else {
            lemma_vertices_grow(objects, stride, m - 1, n - 1);
        }
    }
}

impl RebuildFn {
    /// The live data fits: the stride is not zero, each mesh holds whole
    /// vertices only, and its number of indices can be written in 32 bits.
    pub open spec fn accepts(&self, live: Seq<LiveMesh>) -> bool {
        &&& self.vertex_stride > 0
        &&& forall|i: int|
            0 <= i < live.len() ==> {
                &&& ((#[trigger] live[i]).vertices@.len() as int) % (self.vertex_stride as int) == 0
                &&& live[i].indices@.len() <= u32::MAX
            }
    }

    /// Whether the live data fits.
    pub fn fits(&self, live: &Vec<LiveMesh>) -> (yes: bool)
        ensures
            yes == self.accepts(live@),
    {
        if self.vertex_stride == 0 {
            return false;
        }
        let mut i: usize = 0;
        while i < live.len()
            invariant
                i <= live.len(),
                self.vertex_stride > 0,
                forall|j: int|
                    0 <= j < i ==> {
                        &&& ((#[trigger] live@[j]).vertices@.len() as int) % (self.vertex_stride as int)
                            == 0
                        &&& live@[j].indices@.len() <= u32::MAX
                    },
            decreases live.len() - i,
        {
            if live[i].vertices.len() % self.vertex_stride != 0 {
                return false;
            }
            if live[i].indices.len() > 0xffff_ffff {
                return false;
            }
            i += 1;
        }
        true
    }

    /// The objects of the live meshes, one for each, in order; fails where
    /// the live data does not fit. No live mesh at all gives no object.
    pub fn rebuild(&self, live: Vec<LiveMesh>) -> (outcome: Result<Vec<MeshData>, PipelineError>)
        ensures
            match outcome {
                Ok(objects) => self.accepts(live@) && objects@ == rebuilt(live@),
                Err(e) => e == PipelineError::LayoutMismatch && !self.accepts(live@),
            },
    {
        if !self.fits(&live) {
            return Err(PipelineError::LayoutMismatch);
        }
        let mut objects: Vec<MeshData> = Vec::new();
        for mesh in iter: live.into_iter()
            invariant
                self.accepts(live@),
                iter.seq() == live@,
                objects@.len() == iter.index(),
                forall|j: int| 0 <= j < objects@.len() ==> objects@[j] == mesh_data(live@[j]),
        {
            assert(mesh == live@[iter.index() as int]);
            let num_indices = mesh.indices.len() as u32;
            objects.push(MeshData { v_buf: mesh.vertices, i_buf: mesh.indices, num_indices });
        }
        assert(objects@ =~= rebuilt(live@));
        Ok(objects)
    }
}

impl BufferGroup {
    /// The number of draws that the group gives rise to: one for each object.
    pub fn draw_count(&self) -> (count: usize)
        ensures
            count == self.objects@.len(),
    {
        self.objects.len()
    }

    /// The number of vertices in the group, at `vertex_stride` bytes each;
    /// nothing where the stride is zero or the number cannot be written.
    pub fn vertex_count(&self, vertex_stride: usize) -> (count: Option<usize>)
        ensures
            match count {
                Some(n) => vertex_stride > 0 && n == vertices_in(
                    self.objects@,
                    vertex_stride as int,
                    self.objects@.len() as int,
                ),
                None => vertex_stride == 0 || vertices_in(
                    self.objects@,
                    vertex_stride as int,
                    self.objects@.len() as int,
                ) > usize::MAX,
            },
    {
        if vertex_stride == 0 {
            return None;
        }
        let mut total: usize = 0;
        let mut i: usize = 0;
        while i < self.objects.len()
            invariant
                i <= self.objects.len(),
                vertex_stride > 0,
                total == vertices_in(self.objects@, vertex_stride as int, i as int),
            decreases self.objects.len() - i,
        {
            let vertices = self.objects[i].v_buf.len() / vertex_stride;
            match total.checked_add(vertices) {
                Some(sum) => {
                    total = sum;
                },
                None => {
                    proof {
                        lemma_vertices_grow(
                            self.objects@,
                            vertex_stride as int,
                            i as int + 1,
                            self.objects@.len() as int,
                        );
                    }
                    return None;
                },
            }
            i += 1;
        }
        Some(total)
    }
}

} // verus!
