use brep::difference::{add_cycle, difference_2d};
use brep::math::{Color, Point2};
use brep::objects::{Cycle, Face, Surface};
use brep::tolerance::Tolerance;
use brep::triangulate::DebugInfo;
use brep::validate::ValidationConfig;

fn p2(u: i64, v: i64) -> Point2 {
    Point2 { u, v }
}

fn red() -> Color {
    Color { r: 255, g: 0, b: 0, alpha: 255 }
}

#[test]
fn add_cycle_keeps_cycle() {
    let cycle = Cycle::polygon_from_points(
        &Surface::xy_plane(),
        vec![p2(0, 0), p2(2, 0), p2(0, 2)],
    );
    let kept = add_cycle(cycle.clone(), false);
    assert_eq!(cycle, kept);
}

#[test]
fn reverse_twice_restores_cycle() {
    let cycle = Cycle::polygon_from_points(
        &Surface::xy_plane(),
        vec![p2(0, 0), p2(4, 0), p2(4, 4), p2(0, 4)],
    );
    let reversed = add_cycle(cycle.clone(), true);
    assert_ne!(cycle, reversed);
    let twice = add_cycle(reversed, true);
    assert_eq!(cycle, twice);
}

#[test]
fn reverse_swaps_and_reverses() {
    let cycle = Cycle::polygon_from_points(
        &Surface::xy_plane(),
        vec![p2(0, 0), p2(2, 0), p2(0, 2)],
    );
    let reversed = add_cycle(cycle.clone(), true);
    assert_eq!(cycle.edges.len(), reversed.edges.len());
    // The first reversed edge is the reverse of the last original edge.
    let orig = cycle.edges[2];
    let rev = reversed.edges[0];
    assert_eq!(
        rev.curve.local().direction.u,
        -orig.curve.local().direction.u,
    );
    assert_eq!(
        rev.vertices().unwrap().start.global(),
        orig.vertices().unwrap().finish.global(),
    );
}

#[test]
fn square_minus_square() {
    // Exterior square A minus interior square B on the same plane: one
    // face whose exterior cycle is A's and whose single interior cycle is
    // B's exterior, reversed. Triangulating it covers the corners of A
    // and leaves nothing whose centroid lies inside B.
    let surface = Surface::xy_plane();
    let a_points = vec![p2(0, 0), p2(4, 0), p2(4, 4), p2(0, 4)];
    let b_points = vec![p2(1, 1), p2(3, 1), p2(3, 3), p2(1, 3)];

    let a = Face::builder(surface)
        .with_exterior_polygon(a_points.clone())
        .build();
    let b = Face::builder(surface)
        .with_exterior_polygon(b_points.clone())
        .build();

    let config = ValidationConfig { min_distance: 1 };
    let result = difference_2d(&config, vec![a], vec![b], red()).unwrap();
    let faces = result.into_inner();
    assert_eq!(1, faces.len());

    let brep = match &faces[0] {
        Face::Face(brep) => brep,
        Face::Triangles(_) => panic!("expected a boundary-defined face"),
    };
    assert_eq!(surface, brep.surface);
    assert_eq!(red(), brep.color);

    let expected_exterior = Cycle::polygon_from_points(&surface, a_points.clone());
    assert_eq!(vec![expected_exterior], brep.exteriors);

    let expected_interior = add_cycle(
        Cycle::polygon_from_points(&surface, b_points),
        true,
    );
    assert_eq!(vec![expected_interior], brep.interiors);

    let tolerance = Tolerance::from_scalar(1).unwrap();
    let mut debug_info = DebugInfo::new();
    let mesh = brep::triangulate::triangulate(faces, tolerance, &mut debug_info);

    // Triangles cover the corners of A.
    for corner in [(0, 0), (4, 0), (4, 4), (0, 4)] {
        let covered = mesh.triangles().iter().any(|(t, _)| {
            [(t.a.x, t.a.y), (t.b.x, t.b.y), (t.c.x, t.c.y)].contains(&corner)
        });
        assert!(covered);
    }

    // No triangle has its centroid inside B, the square 1..3 by 1..3.
    for (t, _) in mesh.triangles() {
        let sx = t.a.x + t.b.x + t.c.x;
        let sy = t.a.y + t.b.y + t.c.y;
        assert!(!(sx > 3 && sx < 9 && sy > 3 && sy < 9));
    }
}

#[test]
fn difference_of_nothing_is_empty() {
    let config = ValidationConfig { min_distance: 1 };
    let result = difference_2d(&config, vec![], vec![], red()).unwrap();
    assert_eq!(0, result.into_inner().len());
}
