use brep::math::{Point2, Point3};
use brep::objects::{
    Curve, Curve2, Cycle, Edge, Face, FaceBRep, GlobalVertex, Local, Surface, Vertex,
    VerticesOfEdge,
};
use brep::validate::{validate, ValidationConfig, ValidationError};

fn p2(u: i64, v: i64) -> Point2 {
    Point2 { u, v }
}

fn p3(x: i64, y: i64, z: i64) -> Point3 {
    Point3 { x, y, z }
}

#[test]
fn vertices_identified_below_minimum_distance() {
    let config = ValidationConfig { min_distance: 10 };
    let a = GlobalVertex::from_position(p3(0, 0, 0));
    let near = GlobalVertex::from_position(p3(0, 0, 5));
    let far = GlobalVertex::from_position(p3(0, 0, 20));
    // Positions differing by less than the minimum distance compare
    // equal; positions differing by more do not.
    assert!(a.is_identified_with(&near, &config));
    assert!(!a.is_identified_with(&far, &config));
    assert!(a.is_identified_with(&a, &config));
}

#[test]
fn unique_vertices_validate() {
    let face = Face::builder(Surface::xy_plane())
        .with_exterior_polygon(vec![p2(0, 0), p2(50, 0), p2(0, 50)])
        .build();
    let config = ValidationConfig { min_distance: 10 };
    let validated = validate(vec![face.clone()], &config).unwrap();
    assert_eq!(vec![face], validated.into_inner());
}

#[test]
fn close_vertices_are_rejected() {
    // Corners at distance 5, below the minimum distance 10.
    let face = Face::builder(Surface::xy_plane())
        .with_exterior_polygon(vec![p2(0, 0), p2(5, 0), p2(0, 5)])
        .build();
    let config = ValidationConfig { min_distance: 10 };
    let err = match validate(vec![face], &config) {
        Err(err) => err,
        Ok(_) => panic!("close vertices must be rejected"),
    };
    assert!(matches!(err, ValidationError::NonUniqueVertex { .. }));
}

#[test]
fn out_of_range_vertices_are_rejected() {
    // A hand-built edge whose vertex lies outside the exact coordinate
    // range.
    let huge = p3(2_000_000, 0, 0);
    let edge = Edge {
        curve: Local::new(
            Curve2 {
                origin: p2(0, 0),
                direction: brep::math::Vector2 { u: 1, v: 0 },
            },
            Curve {
                origin: p3(0, 0, 0),
                direction: brep::math::Vector3 { x: 1, y: 0, z: 0 },
            },
        ),
        vertices: Some(VerticesOfEdge {
            start: Vertex::new(0, GlobalVertex::from_position(p3(0, 0, 0))),
            finish: Vertex::new(1, GlobalVertex::from_position(huge)),
        }),
    };
    let face = Face::Face(FaceBRep {
        surface: Surface::xy_plane(),
        exteriors: vec![Cycle { edges: vec![edge] }],
        interiors: vec![],
        color: brep::math::Color { r: 255, g: 0, b: 0, alpha: 255 },
    });
    let config = ValidationConfig { min_distance: 1 };
    let err = match validate(vec![face], &config) {
        Err(err) => err,
        Ok(_) => panic!("out-of-range vertices must be rejected"),
    };
    assert_eq!(ValidationError::OutOfBounds { position: huge }, err);
}

#[test]
fn approximation_points_lie_on_the_curve() {
    // The polyline of a line-segment edge is exactly its two end points:
    // zero deviation from the true curve, within any tolerance.
    let cycle = Cycle::polygon_from_points(
        &Surface::xy_plane(),
        vec![p2(0, 0), p2(10, 0), p2(0, 10)],
    );
    let tolerance = brep::tolerance::Tolerance::from_scalar(1).unwrap();
    let approx = brep::approx::CycleApprox::new(&cycle, tolerance);
    assert_eq!(6, approx.points.len());
    assert_eq!(p2(0, 0), approx.points[0].local());
    assert_eq!(p2(10, 0), approx.points[1].local());
    assert_eq!(p3(10, 0, 0), approx.points[1].canonical());
    assert_eq!(p2(10, 0), approx.points[2].local());
    assert_eq!(p2(0, 10), approx.points[3].local());
    assert_eq!(p2(0, 10), approx.points[4].local());
    assert_eq!(p2(0, 0), approx.points[5].local());
}
