use vstd::prelude::*;
use crate::error::{Error, Issue};
use crate::graphics::Model;
use crate::scalar::Scalar;

verus! {

/// One vertex of a loaded mesh: where it lies and which way its surface
/// faces.
#[derive(Clone, Copy, Debug, PartialEq, Eq)]
pub struct Vertex3 {
    pub position: [Scalar; 3],
    pub normal: [Scalar; 3],
}

/// One mesh as a loader hands it over: attribute arrays with three scalars
/// for each vertex, and the indices of the vertices that make up its
/// triangles.
#[derive(Clone, Debug, PartialEq, Eq)]
pub struct Mesh {
    pub positions: Vec<Scalar>,
    /// Empty where the source gave no normals.
    pub normals: Vec<Scalar>,
    pub indices: Vec<u32>,
}

impl Mesh {
    /// Whether the attribute arrays hold the vertex with index `i`.
    pub open spec fn has_vertex(&self, i: int) -> bool {
        &&& 0 <= i
        &&& 3 * i + 2 < self.positions@.len()
        &&& (self.normals@.len() == 0 || 3 * i + 2 < self.normals@.len())
    }

    /// The vertex with index `i`; its normal is the zero vector where the
    /// mesh has no normals.
    pub open spec fn vertex(&self, i: int) -> Vertex3 {
        Vertex3 {
            position: [
                self.positions@[3 * i],
                self.positions@[3 * i + 1],
                self.positions@[3 * i + 2],
            ],
            normal: if self.normals@.len() == 0 {
                [Scalar::zero(), Scalar::zero(), Scalar::zero()]
            } else {
                [self.normals@[3 * i], self.normals@[3 * i + 1], self.normals@[3 * i + 2]]
            },
        }
    }

    /// Whether every index names a vertex that the attribute arrays hold.
    pub open spec fn well_formed(&self) -> bool {
        forall|k: int|
            0 <= k < self.indices@.len() ==> self.has_vertex(#[trigger] self.indices@[k] as int)
    }

    /// The vertices of the mesh's triangles, one for each index, in the
    /// order of the indices.
    pub open spec fn expanded(&self) -> Seq<Vertex3> {
        Seq::new(self.indices@.len(), |k: int| self.vertex(self.indices@[k] as int))
    }
}

/// Whether every mesh of `meshes` is well formed.
pub open spec fn all_well_formed(meshes: Seq<Mesh>) -> bool {
    forall|m: int| 0 <= m < meshes.len() ==> (#[trigger] meshes[m]).well_formed()
}

/// The expanded vertices of all `meshes`, mesh after mesh.
pub open spec fn expanded_all(meshes: Seq<Mesh>) -> Seq<Vertex3>
    decreases meshes.len(),
{
    if meshes.len() == 0 {
        Seq::empty()
    } else {
        expanded_all(meshes.drop_last()) + meshes.last().expanded()
    }
}

/// The message of the error that `load_model` gives for an index without
/// a vertex.
pub open spec fn bad_index_message() -> Seq<char> {
    "mesh index out of range"@
}

/// Three scalars starting at `3 * i` lie within `len` exactly when `i` is
/// below a third of `len`.
proof fn lemma_thirds(i: int, len: int)
    requires
        0 <= i,
        0 <= len,
    ensures
        i < len / 3 <==> 3 * i + 2 < len,
{
    assert(len == 3 * (len / 3) + len % 3 && 0 <= len % 3 < 3) by (nonlinear_arith)
        requires
            0 <= len,
    ;
}

/// Appends the expanded vertices of `mesh` to `out`, or fails at the first
/// index that names no vertex.
fn expand_into(mesh: &Mesh, out: &mut Vec<Vertex3>) -> (ok: bool)
    ensures
        ok == mesh.well_formed(),
        ok ==> final(out)@ == old(out)@ + mesh.expanded(),
{
    let ghost before = out@;
    let third_positions: usize = mesh.positions.len() / 3;
    let third_normals: usize = mesh.normals.len() / 3;
    let no_normals: bool = mesh.normals.len() == 0;
    let mut k: usize = 0;
    while k < mesh.indices.len()
        invariant
            k <= mesh.indices@.len(),
            third_positions == mesh.positions@.len() / 3,
            third_normals == mesh.normals@.len() / 3,
            no_normals == (mesh.normals@.len() == 0),
            mesh.positions@.len() <= usize::MAX,
            mesh.normals@.len() <= usize::MAX,
            forall|j: int| 0 <= j < k ==> mesh.has_vertex(#[trigger] mesh.indices@[j] as int),
            out@ == before + mesh.expanded().take(k as int),
        decreases mesh.indices@.len() - k,
    {
        let index: u32 = mesh.indices[k];
        let i: usize = index as usize;
        proof {
            lemma_thirds(i as int, mesh.positions@.len() as int);
            lemma_thirds(i as int, mesh.normals@.len() as int);
        }
        if i >= third_positions || (!no_normals && i >= third_normals) {
            return false;
        }
        let position =
            [mesh.positions[3 * i], mesh.positions[3 * i + 1], mesh.positions[3 * i + 2]];
        let normal = if no_normals {
            [Scalar::zero(), Scalar::zero(), Scalar::zero()]
        } else {
            [mesh.normals[3 * i], mesh.normals[3 * i + 1], mesh.normals[3 * i + 2]]
        };
        out.push(Vertex3 { position, normal });
        proof {
            assert(mesh.expanded().take(k + 1) =~= mesh.expanded().take(k as int).push(
                mesh.vertex(index as int),
            ));
        }
        k = k + 1;
    }
    proof {
        assert(mesh.expanded().take(k as int) =~= mesh.expanded());
    }
    true
}

impl Model {
    /// Expands indexed meshes into the flat list of vertices that is drawn:
    /// one vertex for each index, mesh after mesh, with a zero normal where a
    /// mesh has no normals.
    ///
    /// Fails, with the message `bad_index_message`, exactly when some index
    /// names a vertex that its mesh's attribute arrays do not hold.
    pub fn load_model(meshes: &Vec<Mesh>) -> (r: Issue<Vec<Vertex3>>)
        ensures
            all_well_formed(meshes@) <==> r is Ok,
            r matches Ok(vertices) ==> vertices@ == expanded_all(meshes@),
            r matches Err(Error::UnknownError(message)) ==> message@ == bad_index_message(),
    {
        let mut vertices: Vec<Vertex3> = Vec::new();
        let mut m: usize = 0;
        while m < meshes.len()
            invariant
                m <= meshes@.len(),
                all_well_formed(meshes@.take(m as int)),
                vertices@ == expanded_all(meshes@.take(m as int)),
            decreases meshes@.len() - m,
        {
            let ok = expand_into(&meshes[m], &mut vertices);
            if !ok {
                return Err(Error::UnknownError("mesh index out of range".to_owned()));
            }
            proof {
                assert(meshes@.take(m + 1).drop_last() =~= meshes@.take(m as int));
                assert(meshes@.take(m + 1).last() == meshes@[m as int]);
            }
            m = m + 1;
        }
        proof {
            assert(meshes@.take(m as int) =~= meshes@);
        }
        Ok(vertices)
    }
}

} // verus!
