use brep::math::{Aabb, Point2, Point3};
use brep::objects::{Face, Surface};
use brep::processor::{Error, ShapeProcessor};
use brep::registry::{
    should_publish, Crate, CrateState, Registry, RegistryError, RegistryLookup, Version,
};
use brep::tolerance::Tolerance;

fn p2(u: i64, v: i64) -> Point2 {
    Point2 { u, v }
}

fn p3(x: i64, y: i64, z: i64) -> Point3 {
    Point3 { x, y, z }
}

fn version(major: u64, minor: u64, patch: u64) -> Version {
    Version { major, minor, patch }
}

#[test]
fn tolerance_must_be_positive() {
    assert!(Tolerance::from_scalar(0).is_err());
    assert!(Tolerance::from_scalar(-3).is_err());
    let t = Tolerance::from_scalar(5).unwrap();
    assert_eq!(5, t.inner());
}

#[test]
fn processor_rejects_invalid_user_tolerance() {
    let err = match ShapeProcessor::new(Some(-1)) {
        Err(err) => err,
        Ok(_) => panic!("a negative tolerance must be rejected"),
    };
    assert_eq!(-1, err.invalid_tolerance);
    assert!(ShapeProcessor::new(Some(7)).is_ok());
    assert!(ShapeProcessor::new(None).is_ok());
}

#[test]
fn processor_derives_default_tolerance() {
    let face = Face::builder(Surface::xy_plane())
        .with_exterior_polygon(vec![p2(0, 0), p2(4000, 0), p2(0, 4000)])
        .build();
    let aabb = Aabb { min: p3(0, 0, 0), max: p3(4000, 4000, 0) };
    let processor = ShapeProcessor::new(None).unwrap();
    // Smallest positive extent is 4000; the default tolerance is 4.
    let shape = processor.process(vec![face], aabb).unwrap();
    assert_eq!(aabb, shape.aabb);
    assert_eq!(1, shape.mesh.len());
}

#[test]
fn processor_rejects_zero_size_model() {
    let aabb = Aabb { min: p3(0, 0, 0), max: p3(0, 0, 0) };
    let processor = ShapeProcessor::new(None).unwrap();
    let err = match processor.process(vec![], aabb) {
        Err(err) => err,
        Ok(_) => panic!("a zero-size model must be rejected"),
    };
    assert!(matches!(err, Error::Extent(_)));
}

#[test]
fn processor_uses_given_tolerance() {
    let face = Face::builder(Surface::xy_plane())
        .with_exterior_polygon(vec![p2(0, 0), p2(1, 0), p2(0, 1)])
        .build();
    // A degenerate bounding box does not matter when a tolerance is given.
    let aabb = Aabb { min: p3(0, 0, 0), max: p3(0, 0, 0) };
    let processor = ShapeProcessor::new(Some(1)).unwrap();
    let shape = processor.process(vec![face], aabb).unwrap();
    assert_eq!(1, shape.mesh.len());
}

#[test]
fn swept_bounding_volume_covers_both_ends() {
    let base = Aabb { min: p3(0, 0, 0), max: p3(1, 1, 1) };
    let path = brep::math::Vector3 { x: 0, y: 0, z: 5 };
    let swept = brep::math::swept_bounding_volume(&base, &path);
    assert_eq!(Aabb { min: p3(0, 0, 0), max: p3(1, 1, 6) }, swept);
}

#[test]
fn crate_validate_reports_missing_path() {
    let c: Crate = "tools".parse().unwrap();
    assert_eq!("tools", c.path);
    assert!(c.validate(true).is_ok());
    assert_eq!(RegistryError::PathNotReadable, c.validate(false).unwrap_err());
}

#[test]
fn determine_state_classifies_versions() {
    let c = Crate::from_path(String::from("tools"));
    let ours = version(1, 2, 3);

    let unknown = c.determine_state(&RegistryLookup::NotFound, &ours).unwrap();
    assert_eq!(CrateState::Unknown, unknown);

    let published = c
        .determine_state(&RegistryLookup::Versions(vec![version(1, 2, 3)]), &ours)
        .unwrap();
    assert_eq!(CrateState::Published, published);

    let behind = c
        .determine_state(&RegistryLookup::Versions(vec![version(1, 3, 0)]), &ours)
        .unwrap();
    assert_eq!(CrateState::Behind, behind);

    let ahead = c
        .determine_state(&RegistryLookup::Versions(vec![version(1, 2, 1)]), &ours)
        .unwrap();
    assert_eq!(CrateState::Ahead, ahead);

    let err = c.determine_state(&RegistryLookup::Status(500), &ours).unwrap_err();
    assert_eq!(RegistryError::UnexpectedStatus(500), err);
}

#[test]
fn publish_skips_published_and_behind() {
    assert!(should_publish(&CrateState::Unknown));
    assert!(should_publish(&CrateState::Ahead));
    assert!(!should_publish(&CrateState::Published));
    assert!(!should_publish(&CrateState::Behind));
}

#[test]
fn registry_keeps_its_crates() {
    let crates = vec![Crate::from_path(String::from("a")), Crate::from_path(String::from("b"))];
    let registry = Registry::new(String::from("token"), crates, true);
    assert!(registry.dry_run);
    assert_eq!(2, registry.crates.len());
}
