use ray_tracer::scene::{identity, Material, Real};
use ray_tracer::shapes::{custom_glass_sphere, glass_sphere, Plane, Sphere, TestShape};
use std::rc::Rc;

fn value(r: Real) -> f64 {
    f64::from_bits(r.to_bits())
}

#[test]
fn objects_glass_sphere_properties() {
    let gs = glass_sphere();
    assert_eq!(value(gs.material().transparency), 1.0);
    assert_eq!(value(gs.material().refractive), 1.5);
}

#[test]
fn sphere_glass_sphere_properties() {
    let gs = glass_sphere();
    assert_eq!(value(gs.material().transparency), 1.0);
    assert_eq!(value(gs.material().refractive), 1.5);
}

#[test]
fn custom_glass_sphere_keeps_transform_and_index() {
    let t = ray_tracer::scene::translation(
        Real::from_bits(0.0f64.to_bits()),
        Real::from_bits(0.0f64.to_bits()),
        Real::from_bits((-0.25f64).to_bits()),
    );
    let gs = custom_glass_sphere(t, Real::from_bits(2.0f64.to_bits()));
    assert_eq!(value(gs.material().refractive), 2.0);
    assert_eq!(value(gs.material().transparency), 1.0);
    assert_eq!(value(gs.material().ambient), 0.1);
    assert_eq!(value(gs.transform().m[14]), -0.25);
    assert_eq!(value(gs.transform().m[15]), 1.0);
}

#[test]
fn default_sphere_and_plane_use_default_material() {
    let s = Sphere::default();
    assert_eq!(value(s.material().diffuse), 0.9);
    assert_eq!(value(s.transform().m[0]), 1.0);
    assert_eq!(value(s.transform().m[1]), 0.0);
    let p = Plane::default();
    assert_eq!(value(p.material().shininess), 200.0);
    assert_eq!(value(p.as_plane().transform().m[10]), 1.0);
}

#[test]
fn sphere_new_shares_material() {
    let m = Rc::new(Material::default());
    let s = Sphere::new(identity(), m.clone());
    assert!(Rc::ptr_eq(s.material(), &m));
    assert_eq!(value(s.as_sphere().props().material.specular), 0.9);
    let _t = TestShape::new(identity(), Material::default());
    let _d = TestShape::default();
}
