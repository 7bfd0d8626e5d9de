use hyprshot::clipboard::{png_to_bmp, ClipboardError};

fn tiny_png() -> Vec<u8> {
    let img = image::RgbaImage::from_pixel(2, 3, image::Rgba([10, 20, 30, 255]));
    let mut out = Vec::new();
    image::DynamicImage::ImageRgba8(img)
        .write_to(&mut std::io::Cursor::new(&mut out), image::ImageFormat::Png)
        .unwrap();
    out
}

#[test]
fn png_becomes_bmp() {
    let png = tiny_png();
    let bmp = png_to_bmp(&png).unwrap();
    assert_eq!(&bmp[..2], b"BM");
    assert_ne!(bmp, png);
    let back = image::load_from_memory_with_format(&bmp, image::ImageFormat::Bmp).unwrap();
    assert_eq!((back.width(), back.height()), (2, 3));
}

#[test]
fn garbage_is_not_png() {
    assert_eq!(png_to_bmp(b"not a png"), Err(ClipboardError::Decode));
    assert_eq!(png_to_bmp(&[]), Err(ClipboardError::Decode));
}

