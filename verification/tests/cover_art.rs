use image::{ImageFormat, Rgb, RgbImage};
use lastui::app::ArtCell;
use lastui::colors::{boost_color, darken_color};
use lastui::cover::{art_rows, decode_cover, glyph_char, placeholder_art, resize_cover, DecodedCover, RgbPixels};
use std::io::Cursor;

fn png(img: &RgbImage) -> Vec<u8> {
    let mut out = Cursor::new(Vec::new());
    img.write_to(&mut out, ImageFormat::Png).unwrap();
    out.into_inner()
}

fn sample() -> RgbImage {
    let mut img = RgbImage::new(3, 2);
    img.put_pixel(0, 0, Rgb([255, 0, 0]));
    img.put_pixel(1, 0, Rgb([0, 255, 0]));
    img.put_pixel(2, 0, Rgb([0, 0, 255]));
    img.put_pixel(0, 1, Rgb([10, 20, 30]));
    img.put_pixel(1, 1, Rgb([200, 200, 200]));
    img.put_pixel(2, 1, Rgb([0, 0, 0]));
    img
}

#[test]
fn decodes_size() {
    match decode_cover(&png(&sample())) {
        DecodedCover::Sized { width, height } => assert_eq!((width, height), (3, 2)),
        _ => panic!("not decoded"),
    }
}

#[test]
fn unreadable_bytes() {
    assert!(matches!(decode_cover(b"not an image"), DecodedCover::Unreadable));
}

#[test]
fn resizes_like_the_image_crate() {
    let bytes = png(&sample());
    let p = resize_cover(&bytes, 6, 3).unwrap();
    assert_eq!((p.width, p.height, p.data.len()), (6, 3, 54));
    let reference = image::load_from_memory(&bytes)
        .unwrap()
        .resize_exact(6, 3, image::imageops::FilterType::Triangle)
        .to_rgb8()
        .into_raw();
    assert_eq!(p.data, reference);
    assert!(resize_cover(b"junk", 6, 3).is_none());
}

#[test]
fn lays_out_cells() {
    let pixels = RgbPixels { width: 2, height: 2, data: vec![255, 0, 0, 0, 255, 0, 0, 0, 255, 90, 90, 90] };
    let rows = art_rows(&pixels, &vec![0, 8, 3, 4]);
    assert_eq!(rows.len(), 2);
    assert_eq!(rows[0].len(), 2);
    let cell = rows[1][1];
    assert_eq!(cell.symbol, '+');
    assert_eq!(cell.colors, Some((boost_color([90, 90, 90]), darken_color([90, 90, 90]))));
    assert_eq!(rows[0][1].symbol, '.');
    assert_eq!(rows[0][0].colors, Some((boost_color([255, 0, 0]), darken_color([255, 0, 0]))));
}

#[test]
fn glyph_ramp() {
    let ramp: String = (0..9).map(glyph_char).collect();
    assert_eq!(ramp, "@%#*+=-:.");
}

#[test]
fn placeholder_line() {
    let rows = placeholder_art();
    assert_eq!(rows.len(), 1);
    let text: String = rows[0].iter().map(|c: &ArtCell| c.symbol).collect();
    assert_eq!(text, "No user stats");
    assert!(rows[0].iter().all(|c| c.colors.is_none()));
}

#[test]
fn resize_fails_exactly_when_decoding_does() {
    let good = png(&sample());
    assert!(!matches!(decode_cover(&good), DecodedCover::Unreadable));
    assert!(resize_cover(&good, 1, 1).is_some());
    let bad = b"\x89PNG broken".to_vec();
    assert!(matches!(decode_cover(&bad), DecodedCover::Unreadable));
    assert!(resize_cover(&bad, 1, 1).is_none());
}
