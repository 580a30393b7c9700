//! What holds of the edges of every mesh and of the points interpolated
//! along them.

use crate::model::{
    all_face_edges, all_samples, distinct, edge_samples, face_edges, mesh_edges, steps_for,
    with_edge, Edge, MeasuredEdge, Sample, MIN_STEPS,
};
use vstd::prelude::*;

verus! {

/// Whether `measured` gives `edges` in their order, each with a length.
pub open spec fn measures(measured: Seq<MeasuredEdge>, edges: Seq<Edge>) -> bool {
    measured.len() == edges.len() && forall|j: int|
        0 <= j < measured.len() ==> (#[trigger] measured[j]).edge == edges[j]
}

/// Whether no edge is measured twice.
pub open spec fn measured_once(measured: Seq<MeasuredEdge>) -> bool {
    forall|i: int, j: int|
        0 <= i < j < measured.len() ==> (#[trigger] measured[i]).edge != (
        #[trigger] measured[j]).edge
}

/// Whether `sample` is one of the points along the edge `measured`.
pub open spec fn lies_on(sample: Sample, measured: MeasuredEdge) -> bool {
    &&& sample.start == measured.edge.start
    &&& sample.end == measured.edge.end
    &&& sample.steps == steps_for(measured.scaled_length)
    &&& 0 <= sample.step <= sample.steps
}

/// How often `sample` stands among `samples`.
pub open spec fn sample_count(samples: Seq<Sample>, sample: Sample) -> nat
    decreases samples.len(),
{
    if samples.len() == 0 {
        0
    } else {
        sample_count(samples.drop_last(), sample) + if samples.last() == sample {
            1nat
        } else {
            0nat
        }
    }
}

/// Where the points of edge `j` begin among the points of all edges.
pub open spec fn block_start(measured: Seq<MeasuredEdge>, j: int) -> nat {
    all_samples(measured.take(j)).len()
}

/// The distinct edges of a list hold no edge twice, and hold exactly the
/// edges of the list.
pub proof fn lemma_distinct_edges(edges: Seq<Edge>)
    ensures
        distinct(edges).no_duplicates(),
        forall|e: Edge| distinct(edges).contains(e) <==> edges.contains(e),
    decreases edges.len(),
{
    if edges.len() > 0 {
        let rest = edges.drop_last();
        let last = edges.last();
        lemma_distinct_edges(rest);
        let d = distinct(rest);
        assert forall|e: Edge| distinct(edges).contains(e) <==> edges.contains(e) by {
            if edges.contains(e) {
                let i = choose|i: int| 0 <= i < edges.len() && edges[i] == e;
                if i < edges.len() - 1 {
                    assert(rest[i] == e);
                    assert(rest.contains(e));
                    assert(d.contains(e));
                    let w = choose|w: int| 0 <= w < d.len() && d[w] == e;
                    assert(with_edge(d, last)[w] == e);
                } else {
                    if !d.contains(last) {
                        assert(d.push(last)[d.len() as int] == last);
                    }
                }
            }
            if distinct(edges).contains(e) {
                let w = choose|w: int| 0 <= w < distinct(edges).len() && distinct(edges)[w] == e;
                if w < d.len() {
                    assert(d[w] == e);
                    assert(d.contains(e));
                    assert(rest.contains(e));
                    let i = choose|i: int| 0 <= i < rest.len() && rest[i] == e;
                    assert(edges[i] == e);
                } else {
                    assert(e == last);
                    assert(edges[edges.len() - 1] == e);
                }
            }
        }
    }
}

/// Each of the three edges of each face stands among the edges of all faces.
pub proof fn lemma_face_edges_are_listed(faces: Seq<Seq<usize>>, f: int, k: int)
    requires
        0 <= f < faces.len(),
        0 <= k < 3,
    ensures
        all_face_edges(faces).contains(face_edges(faces[f])[k]),
    decreases faces.len(),
{
    let rest = all_face_edges(faces.drop_last());
    let three = face_edges(faces.last());
    if f == faces.len() - 1 {
        assert((rest + three)[rest.len() + k] == three[k]);
    } else {
        lemma_face_edges_are_listed(faces.drop_last(), f, k);
        assert(faces.drop_last()[f] == faces[f]);
        let e = face_edges(faces[f])[k];
        let i = choose|i: int| 0 <= i < rest.len() && rest[i] == e;
        assert((rest + three)[i] == e);
    }
}

/// The edges of a mesh hold every edge of every face, and none twice,
/// however many faces share it.
pub proof fn lemma_mesh_edges_are_unique(faces: Seq<Seq<usize>>, f: int, k: int)
    requires
        0 <= f < faces.len(),
        0 <= k < 3,
    ensures
        mesh_edges(faces).no_duplicates(),
        mesh_edges(faces).contains(face_edges(faces[f])[k]),
{
    lemma_distinct_edges(all_face_edges(faces));
    lemma_face_edges_are_listed(faces, f, k);
}

/// An edge is given at least four points; the first is its start, the last
/// its end, and the steps between count up by one.
pub proof fn lemma_edge_samples_span(measured: MeasuredEdge)
    ensures
        edge_samples(measured).len() == steps_for(measured.scaled_length) + 1,
        edge_samples(measured).len() >= 4,
        edge_samples(measured).first().step == 0,
        edge_samples(measured).last().step == edge_samples(measured).last().steps,
        forall|i: int|
            0 <= i < edge_samples(measured).len() ==> {
                let s = #[trigger] edge_samples(measured)[i];
                &&& s.step == i
                &&& lies_on(s, measured)
            },
{
}

/// The count over two lists is the sum of the counts.
pub proof fn lemma_sample_count_add(a: Seq<Sample>, b: Seq<Sample>, sample: Sample)
    ensures
        sample_count(a + b, sample) == sample_count(a, sample) + sample_count(b, sample),
    decreases b.len(),
{
    if b.len() == 0 {
        assert(a + b =~= a);
    } else {
        assert((a + b).drop_last() =~= a + b.drop_last());
        assert((a + b).last() == b.last());
        lemma_sample_count_add(a, b.drop_last(), sample);
    }
}

/// Among the first `upto` points of an edge, a point of that edge stands
/// once if its step is below `upto`, and any other point not at all.
pub proof fn lemma_sample_count_on_edge(measured: MeasuredEdge, sample: Sample, upto: int)
    requires
        0 <= upto <= edge_samples(measured).len(),
    ensures
        sample_count(edge_samples(measured).take(upto), sample) == (if lies_on(sample, measured)
            && sample.step < upto {
            1nat
        } else {
            0nat
        }),
    decreases upto,
{
    if upto > 0 {
        let block = edge_samples(measured);
        assert(block.take(upto).drop_last() =~= block.take(upto - 1));
        assert(block.take(upto).last() == block[upto - 1]);
        lemma_sample_count_on_edge(measured, sample, upto - 1);
    }
}

/// Where no edge is measured twice, a point stands once among the points of
/// all edges if it lies on one of them, and not at all if it lies on none.
pub proof fn lemma_sample_count_all(measured: Seq<MeasuredEdge>, sample: Sample)
    requires
        measured_once(measured),
    ensures
        sample_count(all_samples(measured), sample) == (if exists|j: int|
            0 <= j < measured.len() && lies_on(sample, #[trigger] measured[j]) {
            1nat
        } else {
            0nat
        }),
    decreases measured.len(),
{
    if measured.len() > 0 {
        let rest = measured.drop_last();
        let last = measured.last();
        assert forall|i: int, j: int| 0 <= i < j < rest.len() implies (#[trigger] rest[i]).edge
            != (#[trigger] rest[j]).edge by {
            assert(rest[i] == measured[i] && rest[j] == measured[j]);
        }
        lemma_sample_count_all(rest, sample);
        lemma_sample_count_add(all_samples(rest), edge_samples(last), sample);
        lemma_sample_count_on_edge(last, sample, edge_samples(last).len() as int);
        assert(edge_samples(last).take(edge_samples(last).len() as int) =~= edge_samples(last));
        if lies_on(sample, last) {
            assert(lies_on(sample, measured[measured.len() - 1]));
            if exists|j: int| 0 <= j < rest.len() && lies_on(sample, #[trigger] rest[j]) {
                let j = choose|j: int| 0 <= j < rest.len() && lies_on(sample, #[trigger] rest[j]);
                assert(rest[j] == measured[j]);
                assert(measured[j].edge == measured[measured.len() - 1].edge);
            }
        } else {
            if exists|j: int| 0 <= j < measured.len() && lies_on(sample, #[trigger] measured[j]) {
                let j = choose|j: int|
                    0 <= j < measured.len() && lies_on(sample, #[trigger] measured[j]);
                assert(rest[j] == measured[j]);
            } else {
                assert forall|j: int| 0 <= j < rest.len() implies !lies_on(
                    sample,
                    #[trigger] rest[j],
                ) by {
                    assert(rest[j] == measured[j]);
                }
            }
        }
    }
}

/// Every edge of every face is interpolated exactly once, however many
/// faces share it: where the edges of a mesh are measured, each point along
/// a face's edge stands once among the points of all edges.
pub proof fn lemma_every_edge_interpolated_once(
    faces: Seq<Seq<usize>>,
    measured: Seq<MeasuredEdge>,
    f: int,
    k: int,
)
    requires
        measures(measured, mesh_edges(faces)),
        0 <= f < faces.len(),
        0 <= k < 3,
    ensures
        exists|j: int|
            0 <= j < measured.len() && (#[trigger] measured[j]).edge == face_edges(faces[f])[k]
                && forall|i: int|
                0 <= i < edge_samples(measured[j]).len() ==> sample_count(
                    all_samples(measured),
                    #[trigger] edge_samples(measured[j])[i],
                ) == 1,
{
    let edges = mesh_edges(faces);
    let edge = face_edges(faces[f])[k];
    lemma_mesh_edges_are_unique(faces, f, k);
    let j = choose|j: int| 0 <= j < edges.len() && edges[j] == edge;
    assert(measured[j].edge == edge);
    assert forall|a: int, b: int| 0 <= a < b < measured.len() implies (#[trigger] measured[a]).edge
        != (#[trigger] measured[b]).edge by {
        assert(edges[a] != edges[b]);
    }
    assert forall|i: int| 0 <= i < edge_samples(measured[j]).len() implies sample_count(
        all_samples(measured),
        #[trigger] edge_samples(measured[j])[i],
    ) == 1 by {
        lemma_edge_samples_span(measured[j]);
        lemma_sample_count_all(measured, edge_samples(measured[j])[i]);
        assert(lies_on(edge_samples(measured[j])[i], measured[j]));
    }
}

/// The points of one edge stand together and in order among the points of
/// all edges: point `i` of edge `j` is point `block_start(j) + i` of all.
pub proof fn lemma_edge_points_are_contiguous(measured: Seq<MeasuredEdge>, j: int, i: int)
    requires
        0 <= j < measured.len(),
        0 <= i < edge_samples(measured[j]).len(),
    ensures
        block_start(measured, j) + i < all_samples(measured).len(),
        all_samples(measured)[block_start(measured, j) + i] == edge_samples(measured[j])[i],
        block_start(measured, j + 1) == block_start(measured, j) + edge_samples(
            measured[j],
        ).len(),
    decreases measured.len(),
{
    let rest = measured.drop_last();
    assert(measured.take(j + 1).drop_last() =~= measured.take(j));
    assert(measured.take(j + 1).last() == measured[j]);
    if j == measured.len() - 1 {
        assert(measured.take(j) =~= rest);
    } else {
        lemma_edge_points_are_contiguous(rest, j, i);
        assert(rest.take(j) =~= measured.take(j));
        assert(rest[j] == measured[j]);
    }
}

} // verus!
