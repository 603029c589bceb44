use print_guardian::error::ImageError;
use print_guardian::image_ops::{outline_of, outline_rects, yellow, Color, PixelRect};
use print_guardian::ImageFetcher;

fn picture(width: u32, height: u32) -> image::RgbImage {
    image::RgbImage::from_fn(width, height, |x, y| image::Rgb([(x * 9) as u8, (y * 13) as u8, 40]))
}

fn encoded(picture: &image::RgbImage, format: image::ImageFormat) -> Vec<u8> {
    let mut bytes = Vec::new();
    image::DynamicImage::ImageRgb8(picture.clone())
        .write_to(&mut std::io::Cursor::new(&mut bytes), format)
        .unwrap();
    bytes
}

fn decoded(bytes: &[u8]) -> image::RgbImage {
    image::load_from_memory(bytes).unwrap().to_rgb8()
}

fn rect(left: i32, top: i32, width: u32, height: u32) -> PixelRect {
    PixelRect { left, top, width, height }
}

#[test]
fn flipping_turns_the_rows_around_and_keeps_the_format() {
    let upright = picture(5, 4);
    let bytes = encoded(&upright, image::ImageFormat::Png);
    let flipped = ImageFetcher::apply_image_transformations(&bytes, true).unwrap();
    assert_eq!(image::guess_format(&flipped).unwrap(), image::ImageFormat::Png);
    let turned = decoded(&flipped);
    assert_ne!(turned, upright);
    for y in 0..4 {
        for x in 0..5 {
            assert_eq!(turned.get_pixel(x, y), upright.get_pixel(x, 3 - y));
        }
    }
}

#[test]
fn flipping_twice_gives_the_picture_back() {
    let upright = picture(6, 7);
    let bytes = encoded(&upright, image::ImageFormat::Png);
    let once = ImageFetcher::apply_image_transformations(&bytes, true).unwrap();
    let twice = ImageFetcher::apply_image_transformations(&once, true).unwrap();
    assert_eq!(decoded(&twice), upright);
}

#[test]
fn flipping_keeps_the_colour_type() {
    let clear = image::RgbaImage::from_fn(3, 4, |x, y| image::Rgba([x as u8, y as u8, 9, (40 * y + x) as u8]));
    let mut bytes = Vec::new();
    image::DynamicImage::ImageRgba8(clear.clone())
        .write_to(&mut std::io::Cursor::new(&mut bytes), image::ImageFormat::Png)
        .unwrap();
    let flipped = ImageFetcher::apply_image_transformations(&bytes, true).unwrap();
    let turned = image::load_from_memory(&flipped).unwrap();
    assert_eq!(turned.color(), image::ColorType::Rgba8);
    assert_eq!(turned.to_rgba8(), image::imageops::flip_vertical(&clear));

    let grey = image::GrayImage::from_fn(5, 2, |x, y| image::Luma([(x + 7 * y) as u8]));
    let mut bytes = Vec::new();
    image::DynamicImage::ImageLuma8(grey.clone())
        .write_to(&mut std::io::Cursor::new(&mut bytes), image::ImageFormat::Png)
        .unwrap();
    let flipped = ImageFetcher::apply_image_transformations(&bytes, true).unwrap();
    let turned = image::load_from_memory(&flipped).unwrap();
    assert_eq!(turned.color(), image::ColorType::L8);
    assert_eq!(turned.to_luma8(), image::imageops::flip_vertical(&grey));
    let twice = ImageFetcher::apply_image_transformations(&flipped, true).unwrap();
    assert_eq!(image::load_from_memory(&twice).unwrap().to_luma8(), grey);
}

#[test]
fn without_the_flag_the_bytes_come_back_unchanged() {
    let bytes = encoded(&picture(3, 3), image::ImageFormat::Jpeg);
    assert_eq!(ImageFetcher::apply_image_transformations(&bytes, false), Ok(bytes.clone()));
    assert_eq!(ImageFetcher::apply_image_transformations(b"no image", false), Ok(b"no image".to_vec()));
    assert_eq!(ImageFetcher::apply_image_transformations(&[], false), Ok(Vec::new()));
}

#[test]
fn a_flipped_jpeg_stays_a_jpeg() {
    let bytes = encoded(&picture(16, 16), image::ImageFormat::Jpeg);
    let flipped = ImageFetcher::apply_image_transformations(&bytes, true).unwrap();
    assert_eq!(image::guess_format(&flipped).unwrap(), image::ImageFormat::Jpeg);
    assert_eq!(decoded(&flipped).dimensions(), (16, 16));
}

#[test]
fn data_that_is_no_image_cannot_be_flipped() {
    assert_eq!(
        ImageFetcher::apply_image_transformations(b"no image", true),
        Err(ImageError::InvalidFormat { path: "image data in memory".to_string() })
    );
}

#[test]
fn a_frame_falls_back_to_the_fetched_image() {
    assert_eq!(ImageFetcher::prepare_frame(b"no image".to_vec(), true), b"no image".to_vec());
    assert_eq!(ImageFetcher::prepare_frame(b"no image".to_vec(), false), b"no image".to_vec());
    let upright = picture(4, 4);
    let bytes = encoded(&upright, image::ImageFormat::Png);
    assert_eq!(ImageFetcher::prepare_frame(bytes.clone(), false), bytes);
    let turned = decoded(&ImageFetcher::prepare_frame(bytes, true));
    assert_eq!(turned.get_pixel(1, 0), upright.get_pixel(1, 3));
}

#[test]
fn outlines_grow_by_one_pixel_and_are_cut_at_the_edges() {
    assert_eq!(outline_of(rect(10, 20, 30, 40), 0, 100, 100), Some(rect(10, 20, 30, 40)));
    assert_eq!(outline_of(rect(10, 20, 30, 40), 1, 100, 100), Some(rect(9, 19, 32, 42)));
    assert_eq!(outline_of(rect(10, 20, 30, 40), 2, 100, 100), Some(rect(8, 18, 34, 44)));
    // Cut at the right and at the bottom.
    assert_eq!(outline_of(rect(90, 95, 30, 40), 0, 100, 100), Some(rect(90, 95, 10, 5)));
    assert_eq!(outline_of(rect(90, 95, 30, 40), 2, 100, 100), Some(rect(88, 93, 12, 7)));
    // Nothing left of it, or it starts outside.
    assert_eq!(outline_of(rect(100, 0, 5, 5), 0, 100, 100), None);
    assert_eq!(outline_of(rect(0, 0, 5, 5), 1, 100, 100), None);
    assert_eq!(outline_of(rect(1, 0, 5, 5), 1, 100, 100), None);
    assert_eq!(outline_of(rect(-3, 4, 5, 5), 0, 100, 100), None);
    assert_eq!(outline_of(rect(4, 4, 0, 5), 0, 100, 100), None);
    assert_eq!(outline_of(rect(4, 4, 0, 5), 1, 100, 100), Some(rect(3, 3, 2, 7)));
    assert_eq!(outline_of(rect(i32::MIN, 0, 1, 1), 2, 100, 100), None);
    assert_eq!(outline_of(rect(2, 2, u32::MAX, u32::MAX), 2, 100, 50), Some(rect(0, 0, 100, 50)));
    assert_eq!(
        outline_of(rect(0, 0, u32::MAX, 1), 0, u32::MAX, 1),
        None
    );
}

#[test]
fn outlines_stay_below_the_largest_coordinate() {
    let limit = 0x100_0000u32;
    assert_eq!(outline_of(rect(0, 0, limit, 1), 0, limit, 1), Some(rect(0, 0, limit, 1)));
    assert_eq!(outline_of(rect(0, 0, limit + 1, 1), 0, limit + 1, 1), None);
    assert_eq!(outline_of(rect(1, 0, limit, 1), 0, u32::MAX, 1), None);
    assert_eq!(outline_of(rect(0, 5, 1, limit), 0, 1, u32::MAX), None);
    assert_eq!(outline_of(rect(1, 0, 0x7FFF_FFFF, 1), 0, u32::MAX, 10), None);
    assert_eq!(outline_of(rect(0, 0, 0x7FFF_FFFF, 1), 0, 0x7FFF_FFFF, 1), None);
    assert_eq!(outline_of(rect(0, 0, 0x8000_0000, 1), 0, u32::MAX, 1), None);
    assert!(outline_rects(&vec![rect(0, 0, 0x7FFF_FFFF, 1)], 0x7FFF_FFFF, 1).is_empty());
    // Further out than the three outlines that are drawn.
    assert_eq!(outline_of(rect(10, 20, 30, 40), 5, 100, 100), Some(rect(5, 15, 40, 50)));
    assert_eq!(outline_of(rect(10, 20, 30, 40), u32::MAX, 100, 100), None);
}

#[test]
fn outlines_are_cut_at_the_picture_whatever_size_is_handed_in() {
    let black = image::RgbImage::from_pixel(32, 24, image::Rgb([0, 0, 0]));
    let bytes = encoded(&black, image::ImageFormat::Png);
    let areas = vec![rect(8, 8, 0x7FFF_FFFF, 0x7FFF_FFFF)];
    let huge = ImageFetcher::annotate_image_with_detections(&bytes, &areas, u32::MAX, u32::MAX).unwrap();
    let fitting = ImageFetcher::annotate_image_with_detections(&bytes, &areas, 32, 24).unwrap();
    assert_eq!(huge, fitting);
    let result = decoded(&huge);
    assert_eq!(result.dimensions(), (32, 24));
    let edge = result.get_pixel(20, 7);
    assert!(edge[0] > 150 && edge[1] > 150 && edge[2] < 120, "{:?}", edge);
    let smaller = ImageFetcher::annotate_image_with_detections(&bytes, &areas, 16, 12).unwrap();
    assert_ne!(smaller, fitting);
}

#[test]
fn the_format_is_told_by_the_first_bytes() {
    // Data that starts like a PNG or a JPEG but is none is still taken to
    // the decoder, which refuses it.
    let png_start = [0x89, 0x50, 0x4E, 0x47, 0x0D, 0x0A, 0x1A, 0x0A, 0, 0];
    assert!(ImageFetcher::apply_image_transformations(&png_start, true).is_err());
    let jpeg_start = [0xFF, 0xD8, 0xFF, 0xE0];
    assert!(ImageFetcher::apply_image_transformations(&jpeg_start, true).is_err());
    let upright = picture(3, 2);
    for format in [image::ImageFormat::Png, image::ImageFormat::Jpeg] {
        let bytes = encoded(&upright, format);
        let flipped = ImageFetcher::apply_image_transformations(&bytes, true).unwrap();
        assert_eq!(image::guess_format(&flipped).unwrap(), format);
    }
}

#[test]
fn each_area_gets_up_to_three_outlines() {
    let areas = vec![rect(10, 10, 5, 5), rect(1, 1, 4, 4), rect(200, 0, 1, 1)];
    assert_eq!(
        outline_rects(&areas, 100, 100),
        vec![
            rect(10, 10, 5, 5),
            rect(9, 9, 7, 7),
            rect(8, 8, 9, 9),
            rect(1, 1, 4, 4),
            rect(0, 0, 6, 6),
        ]
    );
    assert!(outline_rects(&Vec::new(), 100, 100).is_empty());
}

#[test]
fn outlines_are_drawn_in_yellow() {
    assert_eq!(yellow(), Color { red: 255, green: 255, blue: 0 });
    // One colour all over keeps the encoding close to the pixels drawn.
    let blue = image::RgbImage::from_pixel(40, 40, image::Rgb([0, 0, 255]));
    let bytes = encoded(&blue, image::ImageFormat::Png);
    let annotated =
        ImageFetcher::annotate_image_with_detections(&bytes, &vec![rect(10, 10, 20, 20)], 40, 40).unwrap();
    let result = decoded(&annotated);
    for (x, y) in [(9, 9), (20, 9), (9, 20), (31, 20), (20, 31), (31, 31)] {
        let edge = result.get_pixel(x, y);
        assert!(edge[0] > 140 && edge[1] > 140 && edge[2] < 130, "({}, {}): {:?}", x, y, edge);
    }
    for (x, y) in [(2, 2), (20, 20), (37, 37)] {
        let other = result.get_pixel(x, y);
        assert!(other[0] < 90 && other[1] < 90 && other[2] > 150, "({}, {}): {:?}", x, y, other);
    }
}

#[test]
fn annotation_draws_into_the_picture_and_encodes_it_as_jpeg() {
    let black = image::RgbImage::from_pixel(64, 48, image::Rgb([0, 0, 0]));
    let bytes = encoded(&black, image::ImageFormat::Png);
    let areas = vec![rect(20, 16, 24, 16)];
    let annotated = ImageFetcher::annotate_image_with_detections(&bytes, &areas, 64, 48).unwrap();
    assert_eq!(image::guess_format(&annotated).unwrap(), image::ImageFormat::Jpeg);
    let result = decoded(&annotated);
    assert_eq!(result.dimensions(), (64, 48));
    // The three outlines make an edge three pixels thick: bright and
    // yellow on the edge, dark well inside and well outside.
    let edge = result.get_pixel(30, 15);
    assert!(edge[0] > 150 && edge[1] > 150 && edge[2] < 120, "{:?}", edge);
    let inside = result.get_pixel(32, 24);
    assert!(inside[0] < 60 && inside[1] < 60, "{:?}", inside);
    let outside = result.get_pixel(5, 5);
    assert!(outside[0] < 60 && outside[1] < 60, "{:?}", outside);

    let plain = ImageFetcher::annotate_image_with_detections(&bytes, &Vec::new(), 64, 48).unwrap();
    assert_eq!(decoded(&plain).dimensions(), (64, 48));
    assert_ne!(plain, annotated);
    assert_eq!(
        ImageFetcher::annotate_image_with_detections(b"no image", &areas, 64, 48),
        Err(ImageError::InvalidFormat { path: "image data in memory".to_string() })
    );
}
