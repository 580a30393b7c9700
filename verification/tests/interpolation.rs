use glam::Vec3;
use holo::error::HoloError;
use holo::geometry::Point3;
use holo::model::{
    canonical_edge, check_face, insert_edge, segment_count, Edge, MeasuredEdge, ObjInterpolator,
    Sample, MIN_STEPS,
};
use holo::scalar::Scalar;

fn s(value: f32) -> Scalar {
    Scalar::from_bits(value.to_bits())
}

fn point(x: f32, y: f32, z: f32) -> Point3 {
    Point3 {
        x: s(x),
        y: s(y),
        z: s(z),
    }
}

fn position(mesh: &ObjInterpolator, index: usize) -> Vec3 {
    let p = mesh.positions[index];
    Vec3::new(
        f32::from_bits(p.x.to_bits()),
        f32::from_bits(p.y.to_bits()),
        f32::from_bits(p.z.to_bits()),
    )
}

fn measure(mesh: &ObjInterpolator, edges: &[Edge], points_per_unit: usize) -> Vec<MeasuredEdge> {
    edges
        .iter()
        .map(|edge| {
            let distance = position(mesh, edge.start).distance(position(mesh, edge.end));
            MeasuredEdge {
                edge: *edge,
                scaled_length: (distance * points_per_unit as f32) as i32,
            }
        })
        .collect()
}

fn interpolate(mesh: &ObjInterpolator, samples: &[Sample]) -> Vec<Vec3> {
    samples
        .iter()
        .map(|sample| {
            let factor = (1.0 / sample.steps as f32) * sample.step as f32;
            position(mesh, sample.start).lerp(position(mesh, sample.end), factor)
        })
        .collect()
}

fn triangle() -> ObjInterpolator {
    ObjInterpolator::new(
        vec![point(0., 0., 0.), point(1., 0., 0.), point(0., 1., 0.)],
        vec![vec![0, 1, 2]],
    )
}

#[test]
fn single_triangle_has_three_edges_of_four_points() {
    let mesh = triangle();
    let edges = mesh.edges().unwrap();
    assert_eq!(
        edges,
        vec![
            Edge { start: 0, end: 1 },
            Edge { start: 1, end: 2 },
            Edge { start: 0, end: 2 }
        ]
    );
    let measured = measure(&mesh, &edges, 1);
    let samples = mesh.interpolate_edges(&measured).unwrap();
    let points = interpolate(&mesh, &samples);
    assert_eq!(points.len(), 12);
    let mut at = 0;
    for edge in &edges {
        let count = samples[at..]
            .iter()
            .take_while(|p| p.start == edge.start && p.end == edge.end)
            .count();
        assert!(count >= 4);
        assert_eq!(samples[at].step, 0);
        assert_eq!(samples[at + count - 1].step, samples[at + count - 1].steps);
        assert_eq!(points[at], position(&mesh, edge.start));
        assert!(points[at + count - 1].abs_diff_eq(position(&mesh, edge.end), 1e-6));
        at += count;
    }
    assert_eq!(at, points.len());
}

#[test]
fn points_of_an_edge_are_evenly_spaced() {
    let mesh = ObjInterpolator::new(vec![point(0., 0., 0.), point(8., 0., 4.)], vec![]);
    let measured = vec![MeasuredEdge {
        edge: Edge { start: 0, end: 1 },
        scaled_length: 4,
    }];
    let samples = mesh.interpolate_edges(&measured).unwrap();
    assert_eq!(
        samples,
        vec![
            Sample { start: 0, end: 1, step: 0, steps: 4 },
            Sample { start: 0, end: 1, step: 1, steps: 4 },
            Sample { start: 0, end: 1, step: 2, steps: 4 },
            Sample { start: 0, end: 1, step: 3, steps: 4 },
            Sample { start: 0, end: 1, step: 4, steps: 4 },
        ]
    );
    let points = interpolate(&mesh, &samples);
    assert_eq!(points[1], Vec3::new(2., 0., 1.));
    assert_eq!(points[2], Vec3::new(4., 0., 2.));
    assert_eq!(points[4], Vec3::new(8., 0., 4.));
}

#[test]
fn shared_edges_are_listed_once() {
    // two triangles that share the edge between the vertices 1 and 2
    let mesh = ObjInterpolator::new(
        vec![
            point(0., 0., 0.),
            point(1., 0., 0.),
            point(0., 1., 0.),
            point(1., 1., 0.),
        ],
        vec![vec![0, 1, 2], vec![2, 1, 3]],
    );
    let edges = mesh.edges().unwrap();
    assert_eq!(
        edges,
        vec![
            Edge { start: 0, end: 1 },
            Edge { start: 1, end: 2 },
            Edge { start: 0, end: 2 },
            Edge { start: 1, end: 3 },
            Edge { start: 2, end: 3 },
        ]
    );
    let measured = measure(&mesh, &edges, 10);
    let samples = mesh.interpolate_edges(&measured).unwrap();
    let starts = samples
        .iter()
        .filter(|p| p.step == 0 && p.start == 1 && p.end == 2)
        .count();
    assert_eq!(starts, 1);
    // the shared edge is as long as the square's diagonal: 14 parts
    let shared: Vec<&Sample> = samples.iter().filter(|p| p.start == 1 && p.end == 2).collect();
    assert_eq!(shared.len(), 15);
}

#[test]
fn only_the_first_three_vertices_of_a_face_make_edges() {
    let mesh = ObjInterpolator::new(
        vec![point(0., 0., 0.); 4],
        vec![vec![3, 2, 1, 0]],
    );
    assert_eq!(
        mesh.edges().unwrap(),
        vec![
            Edge { start: 2, end: 3 },
            Edge { start: 1, end: 2 },
            Edge { start: 1, end: 3 },
        ]
    );
}

#[test]
fn short_faces_and_missing_vertices_make_a_mesh_invalid() {
    let positions = vec![point(0., 0., 0.), point(1., 0., 0.), point(0., 1., 0.)];
    let short = ObjInterpolator::new(positions.clone(), vec![vec![0, 1, 2], vec![0, 1]]);
    assert_eq!(short.edges(), Err(HoloError::InvalidMesh));
    let missing = ObjInterpolator::new(positions.clone(), vec![vec![0, 1, 3]]);
    assert_eq!(missing.edges(), Err(HoloError::InvalidMesh));
    let beyond = ObjInterpolator::new(positions.clone(), vec![vec![0, 1, 2, 9]]);
    assert_eq!(beyond.edges(), Err(HoloError::InvalidMesh));
    let empty = ObjInterpolator::new(positions, vec![]);
    assert_eq!(empty.edges(), Ok(vec![]));
    assert!(check_face(&vec![0, 1, 2], 3));
    assert!(!check_face(&vec![0, 1, 2], 2));
}

#[test]
fn edges_of_missing_vertices_are_not_interpolated() {
    let mesh = triangle();
    let measured = vec![MeasuredEdge {
        edge: Edge { start: 0, end: 3 },
        scaled_length: 5,
    }];
    assert_eq!(mesh.interpolate_edges(&measured), Err(HoloError::InvalidMesh));
    assert_eq!(mesh.interpolate_edges(&vec![]), Ok(vec![]));
}

#[test]
fn an_edge_has_at_least_three_parts() {
    assert_eq!(MIN_STEPS, 3);
    assert_eq!(segment_count(0), 3);
    assert_eq!(segment_count(-7), 3);
    assert_eq!(segment_count(i32::MIN), 3);
    assert_eq!(segment_count(3), 3);
    assert_eq!(segment_count(4), 4);
    assert_eq!(segment_count(i32::MAX), i32::MAX);
}

#[test]
fn an_edge_of_no_length_has_four_points() {
    let mesh = ObjInterpolator::new(vec![point(2., 2., 2.), point(2., 2., 2.)], vec![]);
    let measured = measure(&mesh, &[Edge { start: 0, end: 1 }], 100);
    assert_eq!(measured[0].scaled_length, 0);
    let samples = mesh.interpolate_edges(&measured).unwrap();
    let points = interpolate(&mesh, &samples);
    assert_eq!(points, vec![Vec3::new(2., 2., 2.); 4]);
}

#[test]
fn edges_are_named_lesser_vertex_first() {
    assert_eq!(canonical_edge(5, 7), Edge { start: 5, end: 7 });
    assert_eq!(canonical_edge(7, 5), Edge { start: 5, end: 7 });
    assert_eq!(canonical_edge(4, 4), Edge { start: 4, end: 4 });
    let mut edges = vec![];
    insert_edge(&mut edges, canonical_edge(5, 7));
    insert_edge(&mut edges, canonical_edge(7, 5));
    insert_edge(&mut edges, canonical_edge(1, 7));
    assert_eq!(edges, vec![Edge { start: 5, end: 7 }, Edge { start: 1, end: 7 }]);
}
