use brep::math::{Point2, Point3, Vector3};
use brep::objects::{Face, Surface};
use brep::tolerance::Tolerance;
use brep::transform::{transform_face, transform_shape, transform_vertex, Transform};
use brep::triangulate::DebugInfo;

fn p2(u: i64, v: i64) -> Point2 {
    Point2 { u, v }
}

fn rotation_z() -> Transform {
    // A quarter turn around the z axis, followed by a translation.
    Transform {
        linear_x: Vector3 { x: 0, y: -1, z: 0 },
        linear_y: Vector3 { x: 1, y: 0, z: 0 },
        linear_z: Vector3 { x: 0, y: 0, z: 1 },
        translation: Vector3 { x: 10, y: 20, z: 30 },
    }
}

#[test]
fn transform_moves_vertex_global_form() {
    let vertex = brep::objects::Vertex::new(
        7,
        brep::objects::GlobalVertex::from_position(Point3 { x: 1, y: 2, z: 3 }),
    );
    let moved = transform_vertex(&vertex, &rotation_z());
    // The local position is untouched, the global form is mapped.
    assert_eq!(7, moved.position());
    assert_eq!(Point3 { x: 8, y: 21, z: 33 }, moved.point());
}

#[test]
fn transform_and_triangulate_commute() {
    // Triangulating the transformed face yields exactly the transformed
    // mesh of the original face.
    let face = Face::builder(Surface::xy_plane())
        .with_exterior_polygon(vec![p2(0, 0), p2(4, 0), p2(4, 4), p2(0, 4)])
        .with_interior_polygon(vec![p2(1, 1), p2(3, 1), p2(3, 3), p2(1, 2)])
        .build();
    let t = rotation_z();

    let transformed_face = transform_face(&face, &t);

    let tolerance = Tolerance::from_scalar(1).unwrap();
    let mut debug_info = DebugInfo::new();
    let mesh_then_transform: Vec<_> = brep::triangulate::triangulate(
        vec![face],
        tolerance,
        &mut debug_info,
    )
        .triangles()
        .iter()
        .map(|(tri, color)| (t.transform_triangle(tri), *color))
        .collect();
    let transform_then_mesh = brep::triangulate::triangulate(
        vec![transformed_face],
        tolerance,
        &mut debug_info,
    );

    assert_eq!(&mesh_then_transform, transform_then_mesh.triangles());
}

#[test]
fn transform_shape_maps_all_faces() {
    let face = Face::builder(Surface::xy_plane())
        .with_exterior_polygon(vec![p2(0, 0), p2(2, 0), p2(0, 2)])
        .build();
    let mut faces = vec![face.clone()];
    let t = Transform::translation(Vector3 { x: 5, y: 0, z: 0 });
    transform_shape(&mut faces, &t);
    assert_eq!(1, faces.len());
    assert_eq!(transform_face(&face, &t), faces[0]);
}
