use image::{ImageFormat, Rgba, RgbaImage as Buffer};
use std::io::Cursor;
use thought_train::icon::window_icon_image;

fn png_of(pixels: &[[u8; 4]], width: u32, height: u32) -> Vec<u8> {
    let mut buf = Buffer::new(width, height);
    for (i, p) in pixels.iter().enumerate() {
        let i = i as u32;
        buf.put_pixel(i % width, i / width, Rgba(*p));
    }
    let mut out = Cursor::new(Vec::new());
    buf.write_to(&mut out, ImageFormat::Png).unwrap();
    out.into_inner()
}

#[test]
fn png_decodes_to_its_pixels_and_size() {
    let pixels = [[255, 0, 0, 255], [0, 255, 0, 128], [0, 0, 255, 0]];
    let bytes = png_of(&pixels, 3, 1);
    let img = window_icon_image(&bytes).expect("decodes");
    assert_eq!((img.width, img.height), (3, 1));
    assert_eq!(img.rgba, pixels.concat());
    assert_ne!(img.rgba, bytes);
}

#[test]
fn two_rows_keep_row_order() {
    let pixels = [[1, 2, 3, 4], [5, 6, 7, 8]];
    let img = window_icon_image(&png_of(&pixels, 1, 2)).unwrap();
    assert_eq!((img.width, img.height), (1, 2));
    assert_eq!(img.rgba, vec![1, 2, 3, 4, 5, 6, 7, 8]);
}

#[test]
fn bytes_that_are_no_image_give_none() {
    assert!(window_icon_image(b"not an image at all").is_none());
    assert!(window_icon_image(&[]).is_none());
}
