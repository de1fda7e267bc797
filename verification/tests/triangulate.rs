use brep::math::{Point2, Point3};
use brep::objects::{Face, Surface};
use brep::tolerance::Tolerance;
use brep::triangulate::{DebugInfo, Mesh, Polygon};

fn p2(u: i64, v: i64) -> Point2 {
    Point2 { u, v }
}

fn to_xyz(p: Point2) -> Point3 {
    Point3 { x: p.u, y: p.v, z: 0 }
}

fn triangulate(face: Face) -> Mesh {
    let tolerance = Tolerance::from_scalar(1).unwrap();
    let mut debug_info = DebugInfo::new();
    brep::triangulate::triangulate(vec![face], tolerance, &mut debug_info)
}

#[test]
fn simple() {
    let a = p2(0, 0);
    let b = p2(2, 0);
    let c = p2(2, 2);
    let d = p2(0, 1);

    let face = Face::builder(Surface::xy_plane())
        .with_exterior_polygon(vec![a, b, c, d])
        .build();

    let a = to_xyz(a);
    let b = to_xyz(b);
    let c = to_xyz(c);
    let d = to_xyz(d);

    let triangles = triangulate(face);

    assert!(triangles.contains_triangle([a, b, d]));
    assert!(triangles.contains_triangle([b, c, d]));
    assert!(!triangles.contains_triangle([a, b, c]));
    assert!(!triangles.contains_triangle([a, c, d]));
}

#[test]
fn simple_hole() {
    let a = p2(0, 0);
    let b = p2(4, 0);
    let c = p2(4, 4);
    let d = p2(0, 4);

    let e = p2(1, 1);
    let f = p2(3, 1);
    let g = p2(3, 3);
    let h = p2(1, 2);

    let face = Face::builder(Surface::xy_plane())
        .with_exterior_polygon(vec![a, b, c, d])
        .with_interior_polygon(vec![e, f, g, h])
        .build();

    let triangles = triangulate(face);

    let a = to_xyz(a);
    let d = to_xyz(d);
    let e = to_xyz(e);
    let f = to_xyz(f);
    let g = to_xyz(g);
    let h = to_xyz(h);

    // Should contain some triangles from the polygon. Don't need to test
    // them all.
    assert!(triangles.contains_triangle([a, e, h]));
    assert!(triangles.contains_triangle([a, d, h]));

    // Shouldn't contain any possible triangle from the hole.
    assert!(!triangles.contains_triangle([e, f, g]));
    assert!(!triangles.contains_triangle([e, g, h]));
    assert!(!triangles.contains_triangle([e, f, h]));
    assert!(!triangles.contains_triangle([f, g, h]));
}

/// Twice the signed area of a triangle given in the plane.
fn doubled_area(t: &brep::math::Triangle3) -> i64 {
    let ab = (t.b.x - t.a.x, t.b.y - t.a.y);
    let ac = (t.c.x - t.a.x, t.c.y - t.a.y);
    (ab.0 * ac.1 - ab.1 * ac.0).abs()
}

#[test]
fn single_triangle_exact() {
    let a = p2(0, 0);
    let b = p2(1, 0);
    let c = p2(0, 1);

    let face = Face::builder(Surface::xy_plane())
        .with_exterior_polygon(vec![a, b, c])
        .build();

    let triangles = triangulate(face);

    assert_eq!(1, triangles.len());
    assert!(triangles.contains_triangle([to_xyz(a), to_xyz(b), to_xyz(c)]));
}

#[test]
fn convex_area_is_exact() {
    // A convex boundary with no holes: the triangle areas sum to the
    // polygon's area. The quad (0,0),(2,0),(2,2),(0,1) has area 3.
    let face = Face::builder(Surface::xy_plane())
        .with_exterior_polygon(vec![p2(0, 0), p2(2, 0), p2(2, 2), p2(0, 1)])
        .build();

    let triangles = triangulate(face);

    let total: i64 = triangles.triangles().iter().map(|(t, _)| doubled_area(t)).sum();
    assert_eq!(6, total);
}

#[test]
fn hole_area_is_subtracted() {
    // A 4 by 4 square with the hole (1,1),(3,1),(3,3),(1,2) of area 3:
    // the retained triangles cover area 16 - 3 = 13, and every retained
    // triangle passes the containment filter against both cycles.
    let exterior = vec![p2(0, 0), p2(4, 0), p2(4, 4), p2(0, 4)];
    let hole = vec![p2(1, 1), p2(3, 1), p2(3, 3), p2(1, 2)];

    let face = Face::builder(Surface::xy_plane())
        .with_exterior_polygon(exterior.clone())
        .with_interior_polygon(hole.clone())
        .build();

    let triangles = triangulate(face);

    let total: i64 = triangles.triangles().iter().map(|(t, _)| doubled_area(t)).sum();
    assert_eq!(26, total);

    let polygon = Polygon::new(Surface::xy_plane())
        .with_exterior(exterior)
        .with_interior(hole);
    let mut debug_info = DebugInfo::new();
    for (t, _) in triangles.triangles() {
        let a = p2(t.a.x, t.a.y);
        let b = p2(t.b.x, t.b.y);
        let c = p2(t.c.x, t.c.y);
        assert!(polygon.contains_triangle(a, b, c, &mut debug_info));
    }
}

#[test]
fn pre_triangulated_faces_pass_through() {
    let tri = brep::math::Triangle3 {
        a: Point3 { x: 0, y: 0, z: 0 },
        b: Point3 { x: 1, y: 0, z: 0 },
        c: Point3 { x: 0, y: 1, z: 0 },
    };
    let color = brep::math::Color { r: 1, g: 2, b: 3, alpha: 4 };
    let face = Face::Triangles(vec![(tri, color)]);

    let triangles = triangulate(face);

    assert_eq!(1, triangles.len());
    assert_eq!((tri, color), triangles.triangles()[0]);
}

#[test]
fn containment_is_recorded() {
    let face = Face::builder(Surface::xy_plane())
        .with_exterior_polygon(vec![p2(0, 0), p2(2, 0), p2(2, 2), p2(0, 1)])
        .build();

    let tolerance = Tolerance::from_scalar(1).unwrap();
    let mut debug_info = DebugInfo::new();
    brep::triangulate::triangulate(vec![face], tolerance, &mut debug_info);

    // Every candidate triangle of the quad was tested.
    assert!(debug_info.containment_checks.len() >= 2);
}
