use ray_tracer::call_text::{color_text_arguments, kind_of, split_arguments, tuple_text_arguments, TupleKind};

#[test]
fn color_arguments_are_found_and_split() {
    let args = color_text_arguments("color(1, 0.5, -0.25)").unwrap();
    assert_eq!(args, vec!["1", "0.5", "-0.25"]);
}

#[test]
fn color_text_without_color_call_is_an_error() {
    assert_eq!(color_text_arguments("colour(1, 2, 3)"), Err("colour(1, 2, 3)".to_string()));
    assert_eq!(color_text_arguments("color()"), Err("color()".to_string()));
}

#[test]
fn tuple_kinds_and_arguments() {
    assert_eq!(
        tuple_text_arguments("point(4, -4, 3)"),
        Ok((TupleKind::Point, vec!["4".to_string(), "-4".to_string(), "3".to_string()]))
    );
    assert_eq!(
        tuple_text_arguments("vector(4,-4,3)"),
        Ok((TupleKind::Vector, vec!["4".to_string(), "-4".to_string(), "3".to_string()]))
    );
    assert_eq!(
        tuple_text_arguments("tuple(4.3, -4.2, 3.1, 1.0)"),
        Ok((
            TupleKind::Tuple,
            vec!["4.3".to_string(), "-4.2".to_string(), "3.1".to_string(), "1.0".to_string()]
        ))
    );
}

#[test]
fn unknown_or_malformed_tuples_are_errors() {
    assert_eq!(tuple_text_arguments("normal(1, 2, 3)"), Err("normal(1, 2, 3)".to_string()));
    assert_eq!(tuple_text_arguments("point 1 2 3"), Err("point 1 2 3".to_string()));
}

#[test]
fn splitting_keeps_empty_pieces() {
    assert_eq!(split_arguments("a, b,,c"), vec!["a", "b", "", "c"]);
    assert_eq!(split_arguments(""), vec![""]);
    assert_eq!(split_arguments(" 1 ,2 "), vec!["1", "2"]);
    assert_eq!(split_arguments("x,"), vec!["x", ""]);
}

#[test]
fn kinds_by_first_word() {
    assert_eq!(kind_of("tuple(1,2,3,4)"), Some(TupleKind::Tuple));
    assert_eq!(kind_of("pointy"), Some(TupleKind::Point));
    assert_eq!(kind_of("vec(1,2,3)"), None);
}

#[test]
fn split_pieces_rejoin_to_the_compact_text() {
    for text in ["1, 2, 3", "a,,b", ",", "no commas", ""] {
        let pieces = split_arguments(text);
        assert_eq!(pieces.join(","), text.replace(' ', ""));
        assert!(pieces.iter().all(|p| !p.contains(',')));
    }
}
