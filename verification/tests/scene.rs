use ray_tracer::scene::{
    default_test_pattern, identity, scaling, shearing, translation, Color, Material, MaterialBuilder,
    Pattern, Real,
};

fn r(v: f64) -> Real {
    Real::from_bits(v.to_bits())
}

fn value(r: Real) -> f64 {
    f64::from_bits(r.to_bits())
}

fn entries(m: &[Real; 16]) -> Vec<f64> {
    m.iter().map(|e| value(*e)).collect()
}

#[test]
fn default_material_values() {
    let m = Material::default();
    assert_eq!(value(m.ambient), 0.1);
    assert_eq!(value(m.diffuse), 0.9);
    assert_eq!(value(m.specular), 0.9);
    assert_eq!(value(m.shininess), 200.0);
    assert_eq!(value(m.reflective), 0.0);
    assert_eq!(value(m.transparency), 0.0);
    assert_eq!(value(m.refractive), 1.0);
    match m.pattern {
        Pattern::Solid(c) => {
            assert_eq!(value(c.red), 1.0);
            assert_eq!(value(c.green), 1.0);
            assert_eq!(value(c.blue), 1.0);
        }
        _ => panic!("default pattern is not solid"),
    }
}

#[test]
fn builder_sets_each_property() {
    let m = MaterialBuilder::default()
        .color(Color::new(r(1.0), r(0.2), r(1.0)))
        .ambient(r(0.3))
        .diffuse(r(0.7))
        .specular(r(0.2))
        .shininess(r(50.0))
        .reflective(r(0.8))
        .transparency(r(0.5))
        .refractive(r(1.33))
        .build();
    assert_eq!(value(m.ambient), 0.3);
    assert_eq!(value(m.diffuse), 0.7);
    assert_eq!(value(m.specular), 0.2);
    assert_eq!(value(m.shininess), 50.0);
    assert_eq!(value(m.reflective), 0.8);
    assert_eq!(value(m.transparency), 0.5);
    assert_eq!(value(m.refractive), 1.33);
    match m.pattern {
        Pattern::Solid(c) => assert_eq!(value(c.green), 0.2),
        _ => panic!("colour did not give a solid pattern"),
    }
    let copy = Material::from(&std::rc::Rc::new(m));
    assert_eq!(value(copy.refractive), 1.33);
}

#[test]
fn builder_pattern_replaces_colour() {
    let p = Pattern::Stripe { transform: identity(), even: Color::white(), odd: Color::black() };
    let m = MaterialBuilder::default().color(Color::black()).pattern(p).build();
    assert!(matches!(m.pattern, Pattern::Stripe { .. }));
    assert!(m.pattern.transform().is_some());
    assert!(Pattern::Solid(Color::white()).transform().is_none());
}

#[test]
fn transforms_place_their_arguments() {
    assert_eq!(
        entries(&identity().m),
        vec![1., 0., 0., 0., 0., 1., 0., 0., 0., 0., 1., 0., 0., 0., 0., 1.]
    );
    assert_eq!(
        entries(&translation(r(5.), r(-3.), r(2.)).m),
        vec![1., 0., 0., 0., 0., 1., 0., 0., 0., 0., 1., 0., 5., -3., 2., 1.]
    );
    assert_eq!(
        entries(&scaling(r(2.), r(3.), r(4.)).m),
        vec![2., 0., 0., 0., 0., 3., 0., 0., 0., 0., 4., 0., 0., 0., 0., 1.]
    );
    assert_eq!(
        entries(&shearing(r(1.), r(2.), r(3.), r(4.), r(5.), r(6.)).m),
        vec![1., 3., 5., 0., 1., 1., 6., 0., 2., 4., 1., 0., 0., 0., 0., 1.]
    );
    match default_test_pattern() {
        Pattern::Test(t) => assert_eq!(value(t.m[5]), 1.0),
        _ => panic!("not a test pattern"),
    }
}
