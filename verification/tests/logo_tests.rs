use std::io::Cursor;
use velopack_bins::logo::{load_logo_data, premultiply_to_bgra};

fn png_2x2() -> Vec<u8> {
    let pixels = vec![255, 0, 0, 128, 10, 20, 30, 255, 0, 0, 0, 0, 200, 100, 50, 0];
    let img = image::RgbaImage::from_raw(2, 2, pixels).unwrap();
    let mut out = Cursor::new(Vec::new());
    img.write_to(&mut out, image::ImageFormat::Png).unwrap();
    out.into_inner()
}

#[test]
fn premultiply_swaps_to_bgra() {
    assert_eq!(
        premultiply_to_bgra(&[255, 0, 0, 128, 10, 20, 30, 255]),
        vec![0, 0, 128, 128, 30, 20, 10, 255]
    );
    assert_eq!(premultiply_to_bgra(&[200, 100, 50, 0]), vec![0, 0, 0, 0]);
    assert_eq!(premultiply_to_bgra(&[255, 255, 255, 255, 1, 2]), vec![255, 255, 255, 255]);
    assert_eq!(premultiply_to_bgra(&[]), Vec::<u8>::new());
}

#[test]
fn logo_at_its_own_size_is_converted_exactly() {
    let (w, h, px) = load_logo_data(2, &png_2x2()).unwrap();
    assert_eq!((w, h), (2, 2));
    assert_eq!(px, vec![0, 0, 128, 128, 30, 20, 10, 255, 0, 0, 0, 0, 0, 0, 0, 0]);
}

#[test]
fn logo_size_is_at_least_one() {
    let (w, h, px) = load_logo_data(0, &png_2x2()).unwrap();
    assert_eq!((w, h, px.len()), (1, 1, 4));
    let (w, h, px) = load_logo_data(-5, &png_2x2()).unwrap();
    assert_eq!((w, h, px.len()), (1, 1, 4));
    let (w, h, px) = load_logo_data(5, &png_2x2()).unwrap();
    assert_eq!((w, h, px.len()), (5, 5, 100));
    assert!(px.chunks(4).all(|p| p[0] <= p[3] && p[1] <= p[3] && p[2] <= p[3]));
}

#[test]
fn bytes_that_are_no_image_give_none() {
    assert!(load_logo_data(16, &[1, 2, 3, 4]).is_none());
    assert!(load_logo_data(16, &[]).is_none());
}
