use ray_tracer::quotient::{read_quotient, white_space, Dividend, Quotient};

#[test]
fn pi_over_a_number() {
    assert_eq!(
        read_quotient("π/4"),
        Ok(Quotient { negated: false, dividend: Dividend::Pi, divisor: "4".to_string() })
    );
}

#[test]
fn negated_square_root() {
    assert_eq!(
        read_quotient("-√2/2"),
        Ok(Quotient {
            negated: true,
            dividend: Dividend::SquareRoot("2".to_string()),
            divisor: "2".to_string()
        })
    );
}

#[test]
fn parts_are_trimmed() {
    assert_eq!(
        read_quotient("-√3 / 6"),
        Ok(Quotient {
            negated: true,
            dividend: Dividend::SquareRoot("3".to_string()),
            divisor: "6".to_string()
        })
    );
}

#[test]
fn other_dividends_are_errors() {
    assert_eq!(read_quotient("e/2"), Err("bad dividend: e".to_string()));
    assert_eq!(read_quotient("-3 /2"), Err("bad dividend: 3".to_string()));
}

#[test]
fn text_without_a_slash_is_bad_format() {
    assert_eq!(read_quotient("π"), Err("bad format".to_string()));
    assert_eq!(read_quotient("-√2.2"), Err("bad format".to_string()));
    assert_eq!(read_quotient(""), Err("bad format".to_string()));
}

#[test]
fn only_the_first_two_parts_count() {
    assert_eq!(
        read_quotient("π/3/5"),
        Ok(Quotient { negated: false, dividend: Dividend::Pi, divisor: "3".to_string() })
    );
}

#[test]
fn white_space_matches_std() {
    for c in ['\t', '\n', ' ', '\u{a0}', '\u{2003}', '\u{3000}', 'a', '.', 'π', '\u{200b}'] {
        assert_eq!(white_space(c), c.is_whitespace(), "{:?}", c);
    }
}
