use image::codecs::png::PngEncoder;
use image::{ExtendedColorType, ImageEncoder};
use image_processor::raster::Raster;
use image_processor::decode::{
    accept_decoded, decode, get_metadata, load_image_assembled, or_placeholder, try_decode,
};

fn is_placeholder(data: &[u8], width: u32, height: u32, channels: u8) -> bool {
    data == [0u8, 0, 0] && width == 1 && height == 1 && channels == 3
}

fn png_of(samples: &[u8], width: u32, height: u32, color: ExtendedColorType) -> Vec<u8> {
    let mut out = Vec::new();
    match PngEncoder::new(&mut out).write_image(samples, width, height, color) {
        Ok(()) => out,
        Err(e) => panic!("could not build the input image: {:?}", e),
    }
}

#[test]
fn empty_input_gives_the_placeholder() {
    let img = load_image_assembled(&[]);
    let m = img.metadata();
    assert_eq!(img.data().len(), 3);
    assert!(is_placeholder(img.data(), m.width(), m.height(), m.channels()));
}

#[test]
fn garbage_input_gives_the_placeholder() {
    let img = load_image_assembled(b"this is not an image at all");
    let m = img.metadata();
    assert!(is_placeholder(img.data(), m.width(), m.height(), m.channels()));
}

#[test]
fn bare_signature_gives_the_placeholder() {
    let img = load_image_assembled(&[137, 80, 78, 71, 13, 10, 26, 10]);
    let m = img.metadata();
    assert!(is_placeholder(img.data(), m.width(), m.height(), m.channels()));
}

#[test]
fn truncated_stream_gives_the_placeholder() {
    let whole = png_of(&[1, 2, 3, 4, 5, 6, 7, 8, 9, 10, 11, 12], 2, 2, ExtendedColorType::Rgb8);
    let img = load_image_assembled(&whole[..whole.len() / 2]);
    let m = img.metadata();
    assert!(is_placeholder(img.data(), m.width(), m.height(), m.channels()));
}

#[test]
fn decode_of_malformed_input_gives_three_zero_bytes() {
    let (pixels, m) = decode(&[0xff, 0xd8, 0xff, 0xe0]);
    assert_eq!(pixels, vec![0u8, 0, 0]);
    assert_eq!((m.width(), m.height(), m.channels()), (1, 1, 3));
}

#[test]
fn metadata_of_malformed_input_is_one_by_one() {
    let m = get_metadata(&[]);
    assert_eq!((m.width(), m.height(), m.channels()), (1, 1, 3));
}

#[test]
fn try_decode_keeps_failure_apart() {
    assert!(try_decode(&[]).is_none());
    assert!(try_decode(b"PNG").is_none());
    let one_black_pixel = png_of(&[0, 0, 0], 1, 1, ExtendedColorType::Rgb8);
    let img = match try_decode(&one_black_pixel) {
        Some(img) => img,
        None => panic!("a valid image was rejected"),
    };
    assert_eq!(img.data(), &[0u8, 0, 0][..]);
}

#[test]
fn rgb_input_is_taken_as_it_is() {
    let samples: Vec<u8> = vec![255, 0, 0, 0, 255, 0, 0, 0, 255, 10, 20, 30, 40, 50, 60, 70, 80, 90];
    let png = png_of(&samples, 3, 2, ExtendedColorType::Rgb8);
    let img = load_image_assembled(&png);
    assert_eq!(img.data(), &samples[..]);
    let m = img.metadata();
    assert_eq!((m.width(), m.height(), m.channels()), (3, 2, 3));
}

#[test]
fn alpha_is_stripped() {
    let rgba: Vec<u8> = vec![1, 2, 3, 255, 4, 5, 6, 128, 7, 8, 9, 0, 10, 11, 12, 77];
    let png = png_of(&rgba, 2, 2, ExtendedColorType::Rgba8);
    let (pixels, m) = decode(&png);
    assert_eq!(pixels, vec![1, 2, 3, 4, 5, 6, 7, 8, 9, 10, 11, 12]);
    assert_eq!((m.width(), m.height(), m.channels()), (2, 2, 3));
}

#[test]
fn grey_input_becomes_three_equal_channels() {
    let png = png_of(&[0, 100, 200], 3, 1, ExtendedColorType::L8);
    let (pixels, m) = decode(&png);
    assert_eq!(pixels, vec![0, 0, 0, 100, 100, 100, 200, 200, 200]);
    assert_eq!((m.width(), m.height(), m.channels()), (3, 1, 3));
}

#[test]
fn get_metadata_reports_the_known_shape() {
    let png = png_of(&vec![7u8; 5 * 7 * 4], 5, 7, ExtendedColorType::Rgba8);
    let m = get_metadata(&png);
    assert_eq!(m.width(), 5);
    assert_eq!(m.height(), 7);
    assert_eq!(m.channels(), 3);
}

#[test]
fn get_metadata_agrees_with_the_assembled_image() {
    let png = png_of(&vec![1u8; 4 * 3 * 3], 4, 3, ExtendedColorType::Rgb8);
    let m = get_metadata(&png);
    let img = load_image_assembled(&png);
    let n = img.metadata();
    assert_eq!((m.width(), m.height(), m.channels()), (n.width(), n.height(), n.channels()));
    assert_eq!(img.data().len(), 4 * 3 * 3);
}

#[test]
fn decode_leaves_its_input_alone() {
    let png = png_of(&[9, 8, 7], 1, 1, ExtendedColorType::Rgb8);
    let before = png.clone();
    let _ = load_image_assembled(&png);
    assert_eq!(png, before);
}

#[test]
fn a_consistent_grid_is_accepted() {
    let raster = Raster { width: 2, height: 1, pixels: vec![1, 2, 3, 4, 5, 6] };
    let img = match accept_decoded(Some(raster)) {
        Some(img) => img,
        None => panic!("a consistent grid was rejected"),
    };
    assert_eq!(img.data(), &[1u8, 2, 3, 4, 5, 6][..]);
    assert_eq!(img.metadata().width(), 2);
    assert_eq!(img.metadata().height(), 1);
    assert_eq!(img.metadata().channels(), 3);
}

#[test]
fn an_inconsistent_grid_counts_as_a_failure() {
    let short = Raster { width: 2, height: 2, pixels: vec![0; 11] };
    assert!(accept_decoded(Some(short)).is_none());
    let long = Raster { width: 1, height: 1, pixels: vec![0; 4] };
    assert!(accept_decoded(Some(long)).is_none());
    assert!(accept_decoded(None).is_none());
}

#[test]
fn or_placeholder_keeps_an_image_and_fills_a_gap() {
    let raster = Raster { width: 1, height: 1, pixels: vec![200, 100, 50] };
    let kept = or_placeholder(accept_decoded(Some(raster)));
    assert_eq!(kept.data(), &[200u8, 100, 50][..]);
    let filled = or_placeholder(None);
    let m = filled.metadata();
    assert!(is_placeholder(filled.data(), m.width(), m.height(), m.channels()));
}
