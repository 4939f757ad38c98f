use ray_tracer::parameters::{AddSub, Axis, ColorProperty, MulDiv, RotationAxis, SingleValue, TupleProperty};

#[test]
fn axes_from_names() {
    assert_eq!(Axis::from_str("x").unwrap().val(), RotationAxis::X);
    assert_eq!(Axis::from_str("y").unwrap().val(), RotationAxis::Y);
    assert_eq!(Axis::from_str("z").unwrap().val(), RotationAxis::Z);
}

#[test]
fn tuple_properties_from_names() {
    assert_eq!(TupleProperty::from_str("x").unwrap(), TupleProperty::X);
    assert_eq!(TupleProperty::from_str("y").unwrap(), TupleProperty::Y);
    assert_eq!(TupleProperty::from_str("z").unwrap(), TupleProperty::Z);
    assert_eq!(TupleProperty::from_str("w").unwrap(), TupleProperty::W);
}

#[test]
fn color_properties_from_names() {
    assert_eq!(ColorProperty::from_str("red").unwrap(), ColorProperty::Red);
    assert_eq!(ColorProperty::from_str("green").unwrap(), ColorProperty::Green);
    assert_eq!(ColorProperty::from_str("blue").unwrap(), ColorProperty::Blue);
}

#[test]
fn operators_read_and_written() {
    assert_eq!(AddSub::from_str("+").unwrap(), AddSub::Add);
    assert_eq!(AddSub::from_str("-").unwrap(), AddSub::Sub);
    assert_eq!(AddSub::Add.to_string(), "+");
    assert_eq!(AddSub::Sub.to_string(), "-");
    assert_eq!(MulDiv::from_str("*").unwrap(), MulDiv::Mul);
    assert_eq!(MulDiv::from_str("/").unwrap(), MulDiv::Div);
    assert_eq!(MulDiv::Mul.to_string(), "*");
    assert_eq!(MulDiv::Div.to_string(), "/");
}
