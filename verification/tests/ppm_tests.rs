use pathtracer::camera::grid_side;
use pathtracer::ppm::{assemble_image, dec_string, image_lines, pixel_line, ppm_header};

#[test]
fn dec_string_renders_decimals() {
    assert_eq!(dec_string(0), "0");
    assert_eq!(dec_string(7), "7");
    assert_eq!(dec_string(10), "10");
    assert_eq!(dec_string(255), "255");
    assert_eq!(dec_string(1080), "1080");
    assert_eq!(dec_string(18446744073709551615), "18446744073709551615");
}

#[test]
fn pixel_line_formats_channels() {
    assert_eq!(pixel_line(0, 0, 0), "0 0 0\n");
    assert_eq!(pixel_line(255, 128, 7), "255 128 7\n");
}

#[test]
fn header_matches_plain_text_format() {
    assert_eq!(ppm_header(4, 3), "P3\n4 3\n255\n");
    assert_eq!(ppm_header(1080, 607), "P3\n1080 607\n255\n");
}

#[test]
fn image_lines_puts_header_first() {
    let rows = vec![String::from("1 2 3\n"), String::from("4 5 6\n")];
    let lines = image_lines(2, 2, rows);
    assert_eq!(lines, vec!["P3\n2 2\n255\n", "1 2 3\n", "4 5 6\n"]);
}

#[test]
fn assemble_image_reorders_and_prefixes_header() {
    let pairs: Vec<(usize, String)> = vec![
        (1, String::from("0 0 0\n")),
        (0, String::from("255 255 255\n")),
    ];
    let lines = assemble_image(1, 2, &pairs).expect("both rows present");
    assert_eq!(lines, vec!["P3\n1 2\n255\n", "255 255 255\n", "0 0 0\n"]);
}

#[test]
fn assemble_image_fails_without_all_rows() {
    let pairs: Vec<(usize, String)> = vec![(0, String::from("0 0 0\n"))];
    assert!(assemble_image(1, 2, &pairs).is_none());
}

#[test]
fn grid_side_is_the_integer_square_root() {
    assert_eq!(grid_side(0), 0);
    assert_eq!(grid_side(1), 1);
    assert_eq!(grid_side(3), 1);
    assert_eq!(grid_side(4), 2);
    assert_eq!(grid_side(15), 3);
    assert_eq!(grid_side(16), 4);
    assert_eq!(grid_side(1000), 31);
    assert_eq!(grid_side(999999999999), 999999);
    assert_eq!(grid_side(1000000000000), 1000000);
}
