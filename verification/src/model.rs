//! The edges of a triangle mesh and the points to interpolate along them.

use crate::error::HoloError;
use crate::geometry::Point3;
use vstd::prelude::*;

verus! {

/// An edge between two vertices, named by their indices, lesser first.
#[derive(Debug, Clone, Copy, PartialEq, Eq, Structural)]
pub struct Edge {
    pub start: usize,
    pub end: usize,
}

/// An edge with its length times the density, rounded towards zero.
#[derive(Debug, Clone, Copy, PartialEq, Eq, Structural)]
pub struct MeasuredEdge {
    pub edge: Edge,
    pub scaled_length: i32,
}

/// One point to interpolate: it lies on the way from the vertex `start` to
/// the vertex `end`, `step` parts of `steps` along.
#[derive(Debug, Clone, Copy, PartialEq, Eq, Structural)]
pub struct Sample {
    pub start: usize,
    pub end: usize,
    pub step: i32,
    pub steps: i32,
}

/// The fewest parts an edge is divided into, however short it is.
pub const MIN_STEPS: i32 = 3;

/// The edge between `a` and `b`, whichever comes first.
pub open spec fn edge_between(a: usize, b: usize) -> Edge {
    if a <= b {
        Edge { start: a, end: b }
    } else {
        Edge { start: b, end: a }
    }
}

/// Whether a face names at least three vertices, all of them among the
/// first `vertices`.
pub open spec fn face_is_valid(face: Seq<usize>, vertices: nat) -> bool {
    face.len() >= 3 && forall|k: int| 0 <= k < face.len() ==> #[trigger] face[k] < vertices
}

/// Whether every face is valid.
pub open spec fn faces_are_valid(faces: Seq<Seq<usize>>, vertices: nat) -> bool {
    forall|f: int| 0 <= f < faces.len() ==> face_is_valid(#[trigger] faces[f], vertices)
}

/// The three edges of a triangle.
pub open spec fn face_edges(face: Seq<usize>) -> Seq<Edge> {
    seq![
        edge_between(face[0], face[1]),
        edge_between(face[1], face[2]),
        edge_between(face[2], face[0]),
    ]
}

/// The edges of all faces, face after face, shared edges as often as they
/// are shared.
pub open spec fn all_face_edges(faces: Seq<Seq<usize>>) -> Seq<Edge>
    decreases faces.len(),
{
    if faces.len() == 0 {
        Seq::empty()
    } else {
        all_face_edges(faces.drop_last()) + face_edges(faces.last())
    }
}

/// `edges` with one more edge, unless it is there already.
pub open spec fn with_edge(edges: Seq<Edge>, edge: Edge) -> Seq<Edge> {
    if edges.contains(edge) {
        edges
    } else {
        edges.push(edge)
    }
}

/// The edges of `edges` in the order of their first occurrence, each once.
pub open spec fn distinct(edges: Seq<Edge>) -> Seq<Edge>
    decreases edges.len(),
{
    if edges.len() == 0 {
        Seq::empty()
    } else {
        with_edge(distinct(edges.drop_last()), edges.last())
    }
}

/// The edges of a mesh: the edges of its faces, each once.
pub open spec fn mesh_edges(faces: Seq<Seq<usize>>) -> Seq<Edge> {
    distinct(all_face_edges(faces))
}

/// Into how many parts an edge of the given scaled length is divided.
pub open spec fn steps_for(scaled_length: i32) -> i32 {
    if scaled_length < MIN_STEPS {
        MIN_STEPS
    } else {
        scaled_length
    }
}

/// The points along one edge: from its start, step 0, to its end, the last
/// step.
pub open spec fn edge_samples(measured: MeasuredEdge) -> Seq<Sample> {
    Seq::new(
        (steps_for(measured.scaled_length) + 1) as nat,
        |i: int|
            Sample {
                start: measured.edge.start,
                end: measured.edge.end,
                step: i as i32,
                steps: steps_for(measured.scaled_length),
            },
    )
}

/// The points along all edges, edge after edge.
pub open spec fn all_samples(edges: Seq<MeasuredEdge>) -> Seq<Sample>
    decreases edges.len(),
{
    if edges.len() == 0 {
        Seq::empty()
    } else {
        all_samples(edges.drop_last()) + edge_samples(edges.last())
    }
}

/// Whether both ends of every edge are among the first `vertices`.
pub open spec fn edges_are_valid(edges: Seq<MeasuredEdge>, vertices: nat) -> bool {
    forall|k: int|
        0 <= k < edges.len() ==> (#[trigger] edges[k]).edge.start < vertices && edges[k].edge.end
            < vertices
}

/// The edge between two vertices.
pub fn canonical_edge(a: usize, b: usize) -> (edge: Edge)
    ensures
        edge == edge_between(a, b),
        edge.start <= edge.end,
{
    if a <= b {
        Edge { start: a, end: b }
    } else {
        Edge { start: b, end: a }
    }
}

/// The number of parts for an edge: its scaled length, and at least three.
pub fn segment_count(scaled_length: i32) -> (steps: i32)
    ensures
        steps == steps_for(scaled_length),
        steps >= MIN_STEPS,
{
    if scaled_length < MIN_STEPS {
        MIN_STEPS
    } else {
        scaled_length
    }
}

/// Adds `edge` to `edges` unless it is there already.
pub fn insert_edge(edges: &mut Vec<Edge>, edge: Edge)
    ensures
        final(edges)@ == with_edge(old(edges)@, edge),
{
    let n = edges.len();
    let mut i: usize = 0;
    while i < n
        invariant
            i <= n,
            n == edges@.len(),
            edges@ == old(edges)@,
            forall|j: int| 0 <= j < i ==> edges@[j] != edge,
        decreases n - i,
    {
        if edges[i].start == edge.start && edges[i].end == edge.end {
            assert(edges@[i as int] == edge);
            return ;
        }
        i += 1;
    }
    edges.push(edge);
}

/// A triangle mesh: the positions of its vertices, and its faces, each a
/// list of vertex indices of which the first three make the triangle.
#[derive(Debug, Clone, PartialEq)]
pub struct ObjInterpolator {
    pub positions: Vec<Point3>,
    pub faces: Vec<Vec<usize>>,
}

/// Is the face a triangle of the first `vertices` vertices?
pub fn check_face(face: &Vec<usize>, vertices: usize) -> (ok: bool)
    ensures
        ok == face_is_valid(face@, vertices as nat),
{
    let n = face.len();
    if n < 3 {
        return false;
    }
    let mut k: usize = 0;
    while k < n
        invariant
            k <= n,
            n == face@.len(),
            forall|j: int| 0 <= j < k ==> #[trigger] face@[j] < vertices,
        decreases n - k,
    {
        if face[k] >= vertices {
            return false;
        }
        k += 1;
    }
    true
}

impl ObjInterpolator {
    /// A mesh of the given vertices and faces.
    pub fn new(positions: Vec<Point3>, faces: Vec<Vec<usize>>) -> (mesh: Self)
        ensures
            mesh.positions == positions,
            mesh.faces == faces,
    {
        ObjInterpolator { positions, faces }
    }

    /// The edges of the mesh, each once, in the order in which the faces
    /// first name them. A mesh with a face of fewer than three vertices, or
    /// with a face that names a vertex that is not there, has none.
    pub fn edges(&self) -> (r: Result<Vec<Edge>, HoloError>)
        ensures
            faces_are_valid(self.faces.deep_view(), self.positions@.len()) ==> r.is_ok()
                && r.unwrap()@ == mesh_edges(self.faces.deep_view()),
            !faces_are_valid(self.faces.deep_view(), self.positions@.len()) ==> r == Err::<
                Vec<Edge>,
                HoloError,
            >(HoloError::InvalidMesh),
    {
        let vertices = self.positions.len();
        let n = self.faces.len();
        let ghost faces = self.faces.deep_view();
        let mut edges: Vec<Edge> = Vec::new();
        let mut f: usize = 0;
        assert(faces.take(0) =~= Seq::<Seq<usize>>::empty());
        while f < n
            invariant
                f <= n,
                n == self.faces@.len(),
                vertices == self.positions@.len(),
                faces == self.faces.deep_view(),
                faces_are_valid(faces.take(f as int), vertices as nat),
                edges@ == mesh_edges(faces.take(f as int)),
            decreases n - f,
        {
            let face = &self.faces[f];
            assert(faces[f as int] == face@);
            if !check_face(face, vertices) {
                return Err(HoloError::InvalidMesh);
            }
            proof {
                let before = all_face_edges(faces.take(f as int));
                let three = face_edges(face@);
                assert(faces.take(f + 1).drop_last() =~= faces.take(f as int));
                assert(faces.take(f + 1).last() == face@);
                lemma_distinct_push(before, three[0]);
                lemma_distinct_push(before.push(three[0]), three[1]);
                lemma_distinct_push(before.push(three[0]).push(three[1]), three[2]);
                assert(before + three =~= before.push(three[0]).push(three[1]).push(three[2]));
                assert forall|g: int| 0 <= g < f + 1 implies face_is_valid(
                    #[trigger] faces.take(f + 1)[g],
                    vertices as nat,
                ) by {
                    if g < f {
                        assert(faces.take(f + 1)[g] == faces.take(f as int)[g]);
                    }
                }
            }
            insert_edge(&mut edges, canonical_edge(face[0], face[1]));
            insert_edge(&mut edges, canonical_edge(face[1], face[2]));
            insert_edge(&mut edges, canonical_edge(face[2], face[0]));
            f += 1;
        }
        assert(faces.take(n as int) =~= faces);
        Ok(edges)
    }

    /// The points to interpolate along the given edges, edge after edge and
    /// on each edge from its start to its end. An edge that names a vertex
    /// that is not there makes the mesh invalid.
    pub fn interpolate_edges(&self, edges: &Vec<MeasuredEdge>) -> (r: Result<
        Vec<Sample>,
        HoloError,
    >)
        ensures
            edges_are_valid(edges@, self.positions@.len()) ==> r.is_ok() && r.unwrap()@
                == all_samples(edges@),
            !edges_are_valid(edges@, self.positions@.len()) ==> r == Err::<
                Vec<Sample>,
                HoloError,
            >(HoloError::InvalidMesh),
    {
        let vertices = self.positions.len();
        let n = edges.len();
        let mut samples: Vec<Sample> = Vec::new();
        let mut k: usize = 0;
        assert(edges@.take(0) =~= Seq::<MeasuredEdge>::empty());
        while k < n
            invariant
                k <= n,
                n == edges@.len(),
                vertices == self.positions@.len(),
                edges_are_valid(edges@.take(k as int), vertices as nat),
                samples@ == all_samples(edges@.take(k as int)),
            decreases n - k,
        {
            let measured = edges[k];
            if measured.edge.start >= vertices || measured.edge.end >= vertices {
                return Err(HoloError::InvalidMesh);
            }
            let steps = segment_count(measured.scaled_length);
            let ghost done = samples@;
            let mut step: i32 = 0;
            loop
                invariant_except_break
                    0 <= step <= steps,
                    samples@ == done + edge_samples(measured).take(step as int),
                invariant
                    steps == steps_for(measured.scaled_length),
                    steps >= MIN_STEPS,
                ensures
                    samples@ == done + edge_samples(measured),
                decreases steps - step,
            {
                let ghost before = samples@;
                samples.push(
                    Sample { start: measured.edge.start, end: measured.edge.end, step, steps },
                );
                assert(samples@ =~= done + edge_samples(measured).take(step + 1));
                if step == steps {
                    assert(edge_samples(measured).take(step + 1) =~= edge_samples(measured));
                    break ;
                }
                step += 1;
            }
            proof {
                assert(edges@.take(k + 1).drop_last() =~= edges@.take(k as int));
                assert(edges@.take(k + 1).last() == measured);
                assert forall|j: int| 0 <= j < k + 1 implies (#[trigger] edges@.take(
                    k + 1,
                )[j]).edge.start < vertices && edges@.take(k + 1)[j].edge.end < vertices by {
                    if j < k {
                        assert(edges@.take(k + 1)[j] == edges@.take(k as int)[j]);
                    }
                }
            }
            k += 1;
        }
        assert(edges@.take(n as int) =~= edges@);
        Ok(samples)
    }
}

/// One more edge at the end of a list adds that edge to the distinct ones.
pub proof fn lemma_distinct_push(edges: Seq<Edge>, edge: Edge)
    ensures
        distinct(edges.push(edge)) == with_edge(distinct(edges), edge),
{
    assert(edges.push(edge).drop_last() =~= edges);
}

} // verus!
