use hyprshot::blur::{blur_pixels, generate_gaussian_kernel, BlurError};
use hyprshot::render::{draw_blur, draw_rectangle};
use hyprshot::state::Rect;
use hyprshot::surface::{apply_blur_in_place, blur_image_surface, copy_region, Surface};

fn surface(width: usize, height: usize, data: Vec<u32>) -> Surface {
    Surface::from_pixels(width, height, width * 4, data).unwrap()
}

/// A surface whose pixel at `(x, y)` is opaque with all colour bytes `x * 16 + y`.
fn gradient(width: usize, height: usize) -> Surface {
    let mut data = Vec::new();
    for y in 0..height {
        for x in 0..width {
            let v = (x * 16 + y) as u32 & 0xff;
            data.push(0xff00_0000 | (v << 16) | (v << 8) | v);
        }
    }
    surface(width, height, data)
}

#[test]
fn kernel_values() {
    let (k, sum) = generate_gaussian_kernel(1).unwrap();
    assert_eq!(k, vec![11, 1000, 11]);
    assert_eq!(sum, 1022);
    let (k, sum) = generate_gaussian_kernel(3).unwrap();
    assert_eq!(k, vec![11, 135, 607, 1000, 607, 135, 11]);
    assert_eq!(sum, 2506);
    let (k, sum) = generate_gaussian_kernel(10).unwrap();
    assert_eq!(k.len(), 17);
    assert_eq!(sum, 6676);
    assert_eq!(k[8], 1000);
    assert_eq!(k[0], 11);
    let (k, _) = generate_gaussian_kernel(-5).unwrap();
    assert_eq!(k, vec![11, 1000, 11]);
}

#[test]
fn blur_identity_below_radius_one() {
    let original: Vec<u32> = vec![0x11223344, 0xff00ff00, 0x80402010, 0x00000000, 0xffffffff, 0x7f7f7f7f];
    for radius in [0, -1, i32::MIN] {
        let mut data = original.clone();
        assert_eq!(blur_pixels(&mut data, 3, 2, 3, radius), Ok(()));
        assert_eq!(data, original);
    }
    let s = gradient(5, 4);
    let copy = blur_image_surface(&s, 1, 1, 3, 2, 0).unwrap();
    let plain = copy_region(&s, 1, 1, 3, 2).unwrap();
    assert_eq!(copy.pixels(), plain.pixels());
}

#[test]
fn blur_flat_colour_is_kept() {
    for color in [0xff336699u32, 0x80402010, 0x00000000, 0xffffffff] {
        for radius in [1, 3, 8, 10, 100] {
            let mut data = vec![color; 7 * 5];
            blur_pixels(&mut data, 7, 5, 7, radius).unwrap();
            assert!(data.iter().all(|&p| p == color), "colour {:#x} radius {}", color, radius);
        }
    }
}

#[test]
fn blur_exact_values_row_and_column() {
    let mut row = vec![0xff000000, 0xffffffff, 0xff000000];
    blur_pixels(&mut row, 3, 1, 3, 1).unwrap();
    assert_eq!(row, vec![0xff020202, 0xfff9f9f9, 0xff020202]);
    let mut col = vec![0xff000000, 0xffffffff, 0xff000000];
    blur_pixels(&mut col, 1, 3, 1, 1).unwrap();
    assert_eq!(col, vec![0xff020202, 0xfff9f9f9, 0xff020202]);
}

#[test]
fn blur_respects_stride_padding() {
    let mut data = vec![0xff102030, 0xff405060, 0x12345678, 0xff708090, 0xffa0b0c0, 0x12345678];
    blur_pixels(&mut data, 2, 2, 3, 2).unwrap();
    assert_eq!(data, vec![0xff2c3c4c, 0xff495969, 0x12345678, 0xff657585, 0xff8292a2, 0x12345678]);
}

#[test]
fn blur_caps_colour_at_alpha() {
    let mut data = vec![0x80ff0000u32; 4];
    blur_pixels(&mut data, 2, 2, 2, 1).unwrap();
    assert_eq!(data, vec![0x80800000; 4]);
}

#[test]
fn blur_empty_buffer() {
    let mut data: Vec<u32> = Vec::new();
    assert_eq!(blur_pixels(&mut data, 0, 0, 0, 5), Ok(()));
    assert!(data.is_empty());
}

#[test]
fn surface_layout_errors() {
    assert_eq!(Surface::from_pixels(2, 2, 6, vec![0; 4]).err(), Some(BlurError::MisalignedStride));
    assert_eq!(Surface::from_pixels(3, 1, 8, vec![0; 2]).err(), Some(BlurError::MisalignedStride));
    assert_eq!(Surface::from_pixels(2, 2, 8, vec![0; 3]).err(), Some(BlurError::BufferSize));
    assert_eq!(Surface::from_pixels(40000, 1, 160000, vec![0; 40000]).err(), Some(BlurError::InvalidSize));
    let s = Surface::from_pixels(2, 2, 12, vec![1, 2, 3, 4, 5, 6]).unwrap();
    assert_eq!((s.width(), s.height(), s.stride()), (2, 2, 12));
    assert_eq!(s.into_pixels(), vec![1, 2, 3, 4, 5, 6]);
}

#[test]
fn copy_region_clears_outside_source() {
    let s = surface(2, 2, vec![1, 2, 3, 4]);
    let r = copy_region(&s, 1, -1, 2, 3).unwrap();
    assert_eq!((r.width(), r.height(), r.stride()), (2, 3, 8));
    assert_eq!(r.pixels(), &[0, 0, 2, 0, 4, 0][..]);
    assert_eq!(copy_region(&s, 0, 0, -1, 2).err(), Some(BlurError::InvalidSize));
    assert_eq!(copy_region(&s, 0, 0, 2, 40000).err(), Some(BlurError::InvalidSize));
    assert_eq!(blur_image_surface(&s, 0, 0, 2, -2, 10).err(), Some(BlurError::InvalidSize));
}

#[test]
fn apply_blur_on_surface() {
    let mut s = surface(3, 1, vec![0xff000000, 0xffffffff, 0xff000000]);
    assert_eq!(apply_blur_in_place(&mut s, 1), Ok(()));
    assert_eq!(s.pixels(), &[0xff020202, 0xfff9f9f9, 0xff020202][..]);
}

#[test]
fn draw_blur_changes_only_inside_rect() {
    let mut s = gradient(16, 12);
    let before = s.duplicate();
    let rect = Rect { x: 3, y: 2, w: 8, h: 6 };
    assert_eq!(draw_blur(&mut s, &rect), Ok(()));
    let mut changed = false;
    for y in 0..12 {
        for x in 0..16 {
            let i = y * 16 + x;
            if rect.contains((x as i32, y as i32)) {
                changed |= s.pixels()[i] != before.pixels()[i];
            } else {
                assert_eq!(s.pixels()[i], before.pixels()[i]);
            }
        }
    }
    assert!(changed);
    let expected = blur_image_surface(&before, 3, 2, 8, 6, 10).unwrap();
    for y in 0..6 {
        for x in 0..8 {
            assert_eq!(s.pixels()[(y + 2) * 16 + x + 3], expected.pixels()[y * 8 + x]);
        }
    }
}

#[test]
fn draw_blur_clips_to_surface() {
    let mut s = gradient(6, 6);
    let before = s.duplicate();
    assert_eq!(draw_blur(&mut s, &Rect { x: -4, y: 3, w: 20, h: 10 }), Ok(()));
    assert_eq!(&s.pixels()[..18], &before.pixels()[..18]);
    assert_ne!(&s.pixels()[18..], &before.pixels()[18..]);
    assert_eq!(draw_blur(&mut s, &Rect { x: 0, y: 0, w: 40000, h: 10 }), Err(BlurError::InvalidSize));
}

#[test]
fn blur_flat_colour_ignores_padding() {
    let color = 0xff204060u32;
    let mut data = Vec::new();
    for _ in 0..4 {
        data.extend_from_slice(&[color, color, color, 0x0badf00d]);
    }
    blur_pixels(&mut data, 3, 4, 4, 5).unwrap();
    for y in 0..4 {
        assert_eq!(&data[y * 4..y * 4 + 4], &[color, color, color, 0x0badf00d]);
    }
}

#[test]
fn draw_rectangle_strokes_two_pixel_outline() {
    let mut s = surface(8, 8, vec![0; 64]);
    draw_rectangle(&mut s, &Rect { x: 2, y: 2, w: 4, h: 4 }, (0x12, 0x34, 0x56));
    for y in 0..8i32 {
        for x in 0..8i32 {
            let outer = (1..7).contains(&x) && (1..7).contains(&y);
            let inner = (3..5).contains(&x) && (3..5).contains(&y);
            let expected = if outer && !inner { 0xff123456 } else { 0 };
            assert_eq!(s.pixels()[(y * 8 + x) as usize], expected, "({}, {})", x, y);
        }
    }
}

#[test]
fn draw_rectangle_clips_to_surface() {
    let mut s = surface(4, 3, vec![7; 12]);
    draw_rectangle(&mut s, &Rect { x: -1, y: 1, w: 10, h: 10 }, (255, 255, 255));
    let w = 0xffffffffu32;
    assert_eq!(s.pixels(), &[w, w, w, w, w, w, w, w, 7, 7, 7, 7][..]);
}
