use pathtracer::rtw_image::{clamp, RtwImage};

#[test]
fn clamp_keeps_values_in_half_open_range() {
    assert_eq!(clamp(-5, 0, 10), 0);
    assert_eq!(clamp(0, 0, 10), 0);
    assert_eq!(clamp(9, 0, 10), 9);
    assert_eq!(clamp(10, 0, 10), 9);
    assert_eq!(clamp(250, 0, 10), 9);
}

fn two_by_two() -> RtwImage {
    // Row-major RGB bytes for a 2x2 image.
    let data = vec![
        10, 11, 12, 20, 21, 22, // top row
        30, 31, 32, 40, 41, 42, // bottom row
    ];
    RtwImage::from_bytes(2, 2, data).expect("well-formed image")
}

#[test]
fn from_bytes_checks_dimensions() {
    assert!(RtwImage::from_bytes(2, 2, vec![0; 12]).is_some());
    assert!(RtwImage::from_bytes(2, 2, vec![0; 11]).is_none());
    assert!(RtwImage::from_bytes(0, 2, vec![]).is_none());
    assert!(RtwImage::from_bytes(2, 0, vec![]).is_none());
}

#[test]
fn pixel_data_reads_row_major_bytes() {
    let img = two_by_two();
    assert_eq!(img.width(), 2);
    assert_eq!(img.height(), 2);
    assert_eq!(img.pixel_data(0, 0), (10, 11, 12));
    assert_eq!(img.pixel_data(1, 0), (20, 21, 22));
    assert_eq!(img.pixel_data(0, 1), (30, 31, 32));
    assert_eq!(img.pixel_data(1, 1), (40, 41, 42));
}

#[test]
fn from_encoded_decodes_a_png() {
    // Encode a 2x1 image with known pixels, then decode it back.
    let img = image::RgbImage::from_fn(2, 1, |x, _| {
        if x == 0 {
            image::Rgb([255, 0, 7])
        } else {
            image::Rgb([1, 2, 3])
        }
    });
    let mut encoded: Vec<u8> = Vec::new();
    image::DynamicImage::ImageRgb8(img)
        .write_to(
            &mut std::io::Cursor::new(&mut encoded),
            image::ImageOutputFormat::Png,
        )
        .expect("encoding to memory cannot fail");

    let decoded = RtwImage::from_encoded(&encoded).expect("a valid image");
    assert_eq!(decoded.width(), 2);
    assert_eq!(decoded.height(), 1);
    assert_eq!(decoded.pixel_data(0, 0), (255, 0, 7));
    assert_eq!(decoded.pixel_data(1, 0), (1, 2, 3));
}

#[test]
fn from_encoded_rejects_junk() {
    let junk = vec![0u8, 1, 2, 3, 4, 5, 6, 7];
    assert!(RtwImage::from_encoded(&junk).is_none());
}

#[test]
fn pixel_data_clamps_out_of_range_lookups() {
    let img = two_by_two();
    assert_eq!(img.pixel_data(5, 0), (20, 21, 22));
    assert_eq!(img.pixel_data(0, 9), (30, 31, 32));
    assert_eq!(img.pixel_data(7, 7), (40, 41, 42));
}
