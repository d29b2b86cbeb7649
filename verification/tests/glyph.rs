use opengl_graphics::error::ConstructionError;
use opengl_graphics::gl;
use opengl_graphics::gl::{Blob, Device, GlCall};
use opengl_graphics::glyph::GlyphBitmap;
use opengl_graphics::texture::TextureSettings;

#[test]
fn a_glyph_is_rendered_with_a_clear_margin() {
    let mut bitmap = GlyphBitmap::new(2, 1).unwrap();
    bitmap.set(0, 0, 200);
    bitmap.set(1, 0, 100);
    let mut dev = Device::new();
    let texture = bitmap.texture(&mut dev, &TextureSettings::new()).unwrap();
    assert_eq!(texture.get_size(), (4, 3));
    assert_eq!(texture.get_id(), 1);
    let coverage = [0u8, 0, 0, 0, 0, 200, 100, 0, 0, 0, 0, 0];
    let pixels: Vec<u8> = coverage.iter().flat_map(|a| [255, 255, 255, *a]).collect();
    assert_eq!(dev.blobs(), &vec![Blob::Bytes(pixels)]);
    assert_eq!(
        dev.calls().last(),
        Some(&GlCall::TexImage2D {
            target: gl::TEXTURE_2D,
            level: 0,
            internal_format: gl::SRGB_ALPHA as i32,
            width: 4,
            height: 3,
            border: 0,
            format: gl::RGBA,
            ty: gl::UNSIGNED_BYTE,
        })
    );
}

#[test]
fn a_glyph_without_pixels_is_all_margin() {
    let bitmap = GlyphBitmap::new(0, 0).unwrap();
    let mut dev = Device::new();
    let texture = bitmap.texture(&mut dev, &TextureSettings::new()).unwrap();
    assert_eq!(texture.get_size(), (2, 2));
    assert_eq!(dev.blobs(), &vec![Blob::Bytes([255, 255, 255, 0].repeat(4))]);
}

#[test]
fn a_pixel_is_set_twice() {
    let mut bitmap = GlyphBitmap::new(1, 2).unwrap();
    bitmap.set(0, 1, 9);
    bitmap.set(0, 1, 7);
    let mut dev = Device::new();
    bitmap.texture(&mut dev, &TextureSettings::new()).unwrap();
    let coverage = [0u8, 0, 0, 0, 0, 0, 0, 7, 0, 0, 0, 0];
    let pixels: Vec<u8> = coverage.iter().flat_map(|a| [255, 255, 255, *a]).collect();
    assert_eq!(dev.blobs(), &vec![Blob::Bytes(pixels)]);
}

#[test]
fn no_bitmap_for_a_box_that_is_negative_or_too_large() {
    assert!(GlyphBitmap::new(-1, 4).is_none());
    assert!(GlyphBitmap::new(4, -1).is_none());
    assert!(GlyphBitmap::new(i32::MAX, 1).is_none());
    assert!(GlyphBitmap::new(i32::MAX - 1, 1).is_none());
    assert!(GlyphBitmap::new(1, i32::MAX - 1).is_none());
    assert!(GlyphBitmap::new(0, 0).is_some());
}

#[test]
fn no_texture_of_a_glyph_without_a_name() {
    let bitmap = GlyphBitmap::new(1, 1).unwrap();
    let mut dev = Device::starting_after(u32::MAX);
    assert_eq!(
        bitmap.texture(&mut dev, &TextureSettings::new()).err(),
        Some(ConstructionError::OutOfNames)
    );
    assert!(dev.calls().is_empty());
}
