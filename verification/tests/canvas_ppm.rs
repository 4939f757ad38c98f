use ray_tracer::canvas::{Canvas, Rgb};
use ray_tracer::ppm::PPM;

fn black() -> Rgb {
    Rgb { red: 0, green: 0, blue: 0 }
}

#[test]
fn creating_a_canvas() {
    let c = Canvas::new(10, 20, black());
    assert_eq!(c.width(), 10);
    assert_eq!(c.height(), 20);
    for y in 0..20 {
        for x in 0..10 {
            assert_eq!(c.pixel_at(x, y), black());
        }
    }
}

#[test]
fn writing_pixels_to_a_canvas() {
    let mut c = Canvas::new(10, 20, black());
    let red = Rgb { red: 255, green: 0, blue: 0 };
    c.write(2, 3, red);
    assert_eq!(c.pixel_at(2, 3), red);
    assert_eq!(c.pixel_at(3, 2), black());
}

#[test]
fn default_canvas_has_no_rows() {
    let c: Canvas<Rgb> = Canvas::default();
    assert_eq!(c.height(), 0);
}

#[test]
fn constructing_the_ppm_header() {
    let c = Canvas::new(5, 3, black());
    let ppm = c.to_ppm();
    assert_eq!(ppm.lines_range(0, 3), "P3\n5 3\n255\n");
}

#[test]
fn constructing_the_ppm_pixel_data() {
    let mut c = Canvas::new(5, 3, black());
    c.write(0, 0, Rgb { red: 255, green: 0, blue: 0 });
    c.write(2, 1, Rgb { red: 0, green: 128, blue: 0 });
    c.write(4, 2, Rgb { red: 0, green: 0, blue: 255 });
    let ppm = c.to_ppm();
    assert_eq!(
        ppm.lines_range(3, 6),
        "255 0 0 0 0 0 0 0 0 0 0 0 0 0 0\n0 0 0 0 0 0 0 128 0 0 0 0 0 0 0\n0 0 0 0 0 0 0 0 0 0 0 0 0 0 255\n"
    );
}

#[test]
fn long_lines_are_broken_after_seventy_characters() {
    let c = Canvas::new(10, 2, Rgb { red: 255, green: 204, blue: 153 });
    let ppm = c.to_ppm();
    let row = vec!["255 204 153"; 10].join(" ");
    let expected = format!("{}\n{}\n", &row[..70], &row[70..]);
    assert_eq!(ppm.lines_range(3, 5), expected);
    assert_eq!(ppm.lines_range(5, 7), expected);
    assert_eq!(ppm.lines_range(3, 4).len(), 71);
}

#[test]
fn ppm_file_ends_with_newline() {
    let c = Canvas::new(5, 3, black());
    let file = c.to_ppm().whole_file();
    assert_eq!(file.chars().last(), Some('\n'));
}

#[test]
fn ppm_of_a_row_of_exactly_seventy_characters_is_one_line() {
    // 5 pixels "255 255 255" (11 chars) joined by spaces: 59 chars; 6: 71.
    let c = Canvas::new(6, 1, Rgb { red: 255, green: 255, blue: 255 });
    let file = c.to_ppm().whole_file();
    let lines: Vec<&str> = file.split('\n').collect();
    assert_eq!(lines[3].len(), 70);
    assert_eq!(lines[4], "5");
}

#[test]
fn empty_rows_give_empty_lines() {
    let c = Canvas::new(0, 2, black());
    assert_eq!(c.to_ppm().whole_file(), "P3\n0 2\n255\n\n\n");
}

#[test]
fn ppm_new_add_line_and_ranges() {
    let mut ppm = PPM::new(12, 345);
    assert_eq!(ppm.whole_file(), "P3\n12 345\n255\n");
    ppm.add_line("1 2 3\n".to_string());
    assert_eq!(ppm.lines_range(1, 2), "12 345\n");
    assert_eq!(ppm.lines_range(3, 4), "1 2 3\n");
    assert_eq!(ppm.lines_range(2, 2), "");
    assert_eq!(
        format!("{}{}", ppm.lines_range(0, 2), ppm.lines_range(2, 4)),
        ppm.whole_file()
    );
}

#[test]
fn pixel_text_is_decimal_channels() {
    assert_eq!(Rgb { red: 255, green: 0, blue: 128 }.as_ppm_string(), "255 0 128");
    assert_eq!(Rgb { red: 7, green: 10, blue: 99 }.as_ppm_string(), "7 10 99");
}

#[test]
fn map_applies_to_every_pixel() {
    let mut c = Canvas::new(3, 2, 0u8);
    c.write(1, 1, 200);
    let m = c.map(|v: u8| Rgb { red: v, green: v / 2, blue: 1 });
    assert_eq!(m.pixel_at(1, 1), Rgb { red: 200, green: 100, blue: 1 });
    assert_eq!(m.pixel_at(0, 0), Rgb { red: 0, green: 0, blue: 1 });
    assert_eq!(m.width(), 3);
    assert_eq!(m.height(), 2);
}

#[test]
fn adding_a_line_keeps_earlier_lines() {
    let mut ppm = PPM::new(2, 1);
    let before = ppm.whole_file();
    let line = "0 0 0 255 255 255\n".to_string();
    ppm.add_line(line.clone());
    assert_eq!(ppm.whole_file(), before.clone() + &line);
    assert_eq!(ppm.lines_range(3, 4), line);
    assert_eq!(ppm.lines_range(0, 3), before);
}
