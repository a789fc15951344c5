use icon_gen::errors::IconError;
use icon_gen::geometry::center_square_crop;
use icon_gen::geometry::square_crop_region;
use icon_gen::geometry::ImageDimensions;
use icon_gen::geometry::Rectangle;
use icon_gen::geometry::SquareCropRegion;
use icon_gen::parse::parse_bounding_box;
use icon_gen::parse::parse_coordinates;
use icon_gen::parse::parse_token;

fn rect(left: u32, top: u32, right: u32, bottom: u32) -> Rectangle {
    Rectangle { left, top, right, bottom }
}

fn dims(width: u32, height: u32) -> ImageDimensions {
    ImageDimensions { width, height }
}

#[test]
fn size_is_max_dimension_for_valid_rects() {
    let d = dims(1000, 1000);
    for (l, t, r, b) in [(10, 20, 30, 25), (0, 0, 1, 2), (100, 100, 200, 300), (5, 5, 500, 6)] {
        let region = square_crop_region(&rect(l, t, r, b), &d).unwrap();
        assert_eq!(region.size, (r - l).max(b - t));
    }
}

#[test]
fn worked_example_region() {
    // crop_width=100, crop_height=200, size=200, center=(150,200), half=100
    let res = square_crop_region(&rect(100, 100, 200, 300), &dims(1000, 1000));
    assert_eq!(res, Ok(SquareCropRegion { x: 50, y: 100, size: 200 }));
    // the region contains the rectangle's center (150, 200)
    let region = res.unwrap();
    assert!(region.x <= 150 && 150 < region.x + region.size);
    assert!(region.y <= 200 && 200 < region.y + region.size);
}

#[test]
fn origin_saturates_at_zero() {
    // size=50, half=25; center (25,25) minus 25 saturates to exactly 0
    let res = square_crop_region(&rect(0, 0, 50, 50), &dims(100, 100));
    assert_eq!(res, Ok(SquareCropRegion { x: 0, y: 0, size: 50 }));
}

#[test]
fn degenerate_rectangle_is_invalid_input() {
    let res = square_crop_region(&rect(100, 100, 100, 200), &dims(1000, 1000));
    assert_eq!(res, Err(IconError::InvalidInput));
}

#[test]
fn inverted_rectangle_is_invalid_input() {
    let res = square_crop_region(&rect(200, 100, 100, 200), &dims(1000, 1000));
    assert_eq!(res, Err(IconError::InvalidInput));
    let res = square_crop_region(&rect(100, 200, 200, 100), &dims(1000, 1000));
    assert_eq!(res, Err(IconError::InvalidInput));
}

#[test]
fn rectangle_outside_image_is_invalid_input() {
    let res = square_crop_region(&rect(500, 500, 600, 600), &dims(100, 100));
    assert_eq!(res, Err(IconError::InvalidInput));
}

#[test]
fn region_may_extend_past_bottom_edge() {
    // The region is not clamped against the image's right/bottom edge: the
    // downstream crop primitive clips it.
    let res = square_crop_region(&rect(0, 15, 20, 20), &dims(20, 20)).unwrap();
    assert_eq!(res, SquareCropRegion { x: 0, y: 7, size: 20 });
    assert!(res.y + res.size > 20);
}

#[test]
fn square_crop_is_deterministic() {
    let r = rect(3, 7, 91, 44);
    let d = dims(640, 480);
    let first = square_crop_region(&r, &d);
    let second = square_crop_region(&r, &d);
    assert_eq!(first, second);
}

#[test]
fn largest_coordinates_do_not_overflow() {
    let res = square_crop_region(
        &rect(0, 0, u32::MAX, u32::MAX),
        &dims(u32::MAX, u32::MAX),
    )
    .unwrap();
    assert_eq!(res.size, u32::MAX);
    // center (2147483647, 2147483647) minus half 2147483647 is exactly 0
    assert_eq!((res.x, res.y), (0, 0));
}

#[test]
fn center_crop_of_wide_image() {
    let c = center_square_crop(&dims(100, 60));
    assert_eq!(c, SquareCropRegion { x: 20, y: 0, size: 60 });
}

#[test]
fn center_crop_of_tall_image() {
    let c = center_square_crop(&dims(60, 100));
    assert_eq!(c, SquareCropRegion { x: 0, y: 20, size: 60 });
}

#[test]
fn center_crop_of_square_image() {
    let c = center_square_crop(&dims(50, 50));
    assert_eq!(c, SquareCropRegion { x: 0, y: 0, size: 50 });
}

#[test]
fn parses_four_clean_coordinates() {
    assert_eq!(parse_coordinates(b"150,80,620,550"), vec![150, 80, 620, 550]);
}

#[test]
fn bad_token_is_dropped_then_count_rejects() {
    assert_eq!(parse_coordinates(b"abc,80,620,550"), vec![80, 620, 550]);
    assert_eq!(
        parse_bounding_box(b"abc,80,620,550"),
        Err(IconError::ParseError)
    );
}

#[test]
fn bounding_box_of_clean_text() {
    assert_eq!(
        parse_bounding_box(b"150,80,620,550"),
        Ok(Rectangle { left: 150, top: 80, right: 620, bottom: 550 })
    );
}

#[test]
fn whitespace_around_tokens_is_trimmed() {
    assert_eq!(parse_coordinates(b" 150 ,\t80 ,\n620, 550 "), vec![150, 80, 620, 550]);
}

#[test]
fn empty_tokens_are_dropped() {
    assert_eq!(parse_coordinates(b"1,,2,3"), vec![1, 2, 3]);
    assert_eq!(parse_coordinates(b""), Vec::<u32>::new());
    assert_eq!(parse_coordinates(b",,,"), Vec::<u32>::new());
}

#[test]
fn five_values_are_rejected() {
    assert_eq!(parse_coordinates(b"1,2,3,4,5"), vec![1, 2, 3, 4, 5]);
    assert_eq!(parse_bounding_box(b"1,2,3,4,5"), Err(IconError::ParseError));
}

#[test]
fn oversized_token_is_dropped() {
    assert_eq!(parse_coordinates(b"99999999999,1,2,3"), vec![1, 2, 3]);
    assert_eq!(
        parse_bounding_box(b"99999999999,1,2,3"),
        Err(IconError::ParseError)
    );
}

#[test]
fn token_parsing_edges() {
    assert_eq!(parse_token(b" 42 "), Some(42));
    assert_eq!(parse_token(b"0"), Some(0));
    assert_eq!(parse_token(b""), None);
    assert_eq!(parse_token(b"   "), None);
    assert_eq!(parse_token(b"4294967295"), Some(u32::MAX));
    assert_eq!(parse_token(b"4294967296"), None);
    assert_eq!(parse_token(b"12 34"), None);
    assert_eq!(parse_token(b"-5"), None);
}

#[test]
fn leading_plus_is_accepted_once() {
    // Rust's u32 parsing accepts one leading plus sign; so does the token
    assert_eq!(parse_token(b"+5"), Some(5));
    assert_eq!(parse_token(b" +42 "), Some(42));
    assert_eq!(parse_token(b"+4294967295"), Some(u32::MAX));
    assert_eq!(parse_token(b"++5"), None);
    assert_eq!(parse_token(b"+"), None);
    assert_eq!(parse_coordinates(b"+1,2,3,4"), vec![1, 2, 3, 4]);
    assert_eq!(
        parse_bounding_box(b"+1,2,3,4"),
        Ok(Rectangle { left: 1, top: 2, right: 3, bottom: 4 })
    );
}

#[test]
fn vertical_tab_counts_as_whitespace() {
    assert_eq!(parse_token(b"\x0b7\x0b"), Some(7));
    assert_eq!(parse_coordinates(b"\x0b1\x0b,2,3,4"), vec![1, 2, 3, 4]);
}

fn png_of_blank_image(width: u32, height: u32) -> Vec<u8> {
    let img = image::DynamicImage::new_rgba8(width, height);
    let mut buf = std::io::Cursor::new(Vec::new());
    img.write_to(&mut buf, image::ImageFormat::Png).unwrap();
    buf.into_inner()
}

#[test]
fn generate_pipeline_squares_and_resizes() {
    let bytes = png_of_blank_image(10, 8);
    let out = icon_gen::pipeline::generate_icon_outputs(&bytes).unwrap();
    let full = image::load_from_memory(&out.icon_full).unwrap();
    assert_eq!((full.width(), full.height()), (8, 8));
    let small = image::load_from_memory(&out.icon_512).unwrap();
    assert_eq!((small.width(), small.height()), (512, 512));
    let large = image::load_from_memory(&out.icon_1024).unwrap();
    assert_eq!((large.width(), large.height()), (1024, 1024));
}

#[test]
fn generate_pipeline_rejects_float_color_bitmap() {
    // An OpenEXR bitmap decodes with 32-bit float channels, which the PNG
    // encoder does not take, so the pipeline reports a codec failure.
    let img = image::DynamicImage::new_rgb32f(4, 4);
    let mut buf = std::io::Cursor::new(Vec::new());
    img.write_to(&mut buf, image::ImageFormat::OpenExr).unwrap();
    let out = icon_gen::pipeline::generate_icon_outputs(&buf.into_inner());
    assert!(matches!(out, Err(IconError::IOError)));
}

#[test]
fn generate_pipeline_rejects_bad_bytes() {
    let out = icon_gen::pipeline::generate_icon_outputs(b"not a png");
    assert!(matches!(out, Err(IconError::IOError)));
}

#[test]
fn smart_crop_pipeline_crops_to_box() {
    let bytes = png_of_blank_image(20, 20);
    // rect (2,2,10,10): size 8, center (6,6), half 4, origin (2,2)
    let out = icon_gen::pipeline::smart_crop_outputs(&bytes, b"2,2,10,10").unwrap();
    let full = image::load_from_memory(&out.icon_full).unwrap();
    assert_eq!((full.width(), full.height()), (8, 8));
    let small = image::load_from_memory(&out.icon_512).unwrap();
    assert_eq!((small.width(), small.height()), (512, 512));
}

#[test]
fn smart_crop_pipeline_clips_overhanging_region() {
    let bytes = png_of_blank_image(20, 20);
    // rect (0,15,20,20): size 20, origin (0,7); the region overhangs the
    // bottom edge and the codec clips the crop to 20x13.
    let out = icon_gen::pipeline::smart_crop_outputs(&bytes, b"0,15,20,20").unwrap();
    let full = image::load_from_memory(&out.icon_full).unwrap();
    assert_eq!((full.width(), full.height()), (20, 13));
}

#[test]
fn smart_crop_pipeline_rejects_bad_text() {
    let bytes = png_of_blank_image(20, 20);
    let out = icon_gen::pipeline::smart_crop_outputs(&bytes, b"no numbers here");
    assert!(matches!(out, Err(IconError::ParseError)));
}

#[test]
fn smart_crop_pipeline_rejects_degenerate_box() {
    let bytes = png_of_blank_image(20, 20);
    let out = icon_gen::pipeline::smart_crop_outputs(&bytes, b"5,5,5,9");
    assert!(matches!(out, Err(IconError::InvalidInput)));
}

#[test]
fn smart_crop_pipeline_rejects_bad_image_bytes() {
    let out = icon_gen::pipeline::smart_crop_outputs(b"junk", b"1,1,2,2");
    assert!(matches!(out, Err(IconError::IOError)));
}
