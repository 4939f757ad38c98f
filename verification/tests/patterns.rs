use ray_tracer::patterns::{Checker, Gradient, Ring, Solid, Stripe, TestPattern};
use ray_tracer::scene::{identity, scaling, Color, Real};

fn value(r: Real) -> f64 {
    f64::from_bits(r.to_bits())
}

#[test]
fn pattern_types_keep_their_colours_and_transforms() {
    let two = Real::from_bits(2.0f64.to_bits());
    let s = Stripe::new(Color::white(), Color::black(), scaling(two, two, two));
    assert_eq!(value(s.as_stripe().even.red), 1.0);
    assert_eq!(value(s.odd.red), 0.0);
    assert_eq!(value(s.transform().unwrap().m[0]), 2.0);
    let r = Ring::new(Color::black(), Color::white(), identity());
    assert_eq!(value(r.odd.blue), 1.0);
    assert_eq!(value(r.transform().unwrap().m[5]), 1.0);
    let c = Checker::new(Color::white(), Color::black(), identity());
    assert_eq!(value(c.even.green), 1.0);
    assert!(c.transform().is_some());
    let g = Gradient::new(Color::white(), Color::black(), identity());
    assert_eq!(value(g.start.red), 1.0);
    assert_eq!(value(g.end.red), 0.0);
    assert!(g.transform().is_some());
    let t = TestPattern::new(scaling(two, two, two));
    assert_eq!(value(t.transform().unwrap().m[10]), 2.0);
    assert_eq!(value(Solid::new(Color::white()).0.blue), 1.0);
}
