//! The bitmap that a glyph is rendered into on its way to a texture.

use vstd::prelude::*;
use crate::error::ConstructionError;
use crate::gl::{Device, DeviceView};
use crate::texture::{created, white_with_alpha, Texture, TextureSettings, TextureView};

verus! {

/// The image that a glyph is rendered into: one byte of coverage for each
/// pixel, row by row, with a margin of one clear pixel on every side.
pub struct GlyphBitmap {
    width: u32,
    height: u32,
    pixels: Vec<u8>,
}

/// What a [`GlyphBitmap`] holds.
pub struct GlyphBitmapView {
    /// The sides of the image, margins included.
    pub width: u32,
    pub height: u32,
    pub pixels: Seq<u8>,
}

impl View for GlyphBitmap {
    type V = GlyphBitmapView;

    closed spec fn view(&self) -> GlyphBitmapView {
        GlyphBitmapView { width: self.width, height: self.height, pixels: self.pixels@ }
    }
}

/// Whether a bitmap can be made for a glyph whose box is `box_width` by
/// `box_height` pixels: the sides are not negative, and the image with its
/// margins is one that a texture can be made of.
pub open spec fn bitmap_fits(box_width: i32, box_height: i32) -> bool {
    &&& 0 <= box_width
    &&& 0 <= box_height
    &&& box_width + 2 <= i32::MAX
    &&& box_height + 2 <= i32::MAX
    &&& (box_width + 2) * (box_height + 2) * 4 <= isize::MAX
}

/// The place of the pixel `(x, y)` of the glyph's box in an image that is
/// `width` pixels wide, margins included.
pub open spec fn pixel_position(x: u32, y: u32, width: u32) -> int {
    (x + 1) + (y + 1) * width
}

impl GlyphBitmap {
    /// There is one byte for each pixel.
    pub closed spec fn wf(&self) -> bool {
        &&& self.width <= i32::MAX
        &&& self.height <= i32::MAX
        &&& self.pixels@.len() == self.width * self.height
        &&& self.width * self.height * 4 <= isize::MAX
    }

    /// A clear bitmap for a glyph whose box is `box_width` by `box_height`
    /// pixels, if there can be one.
    pub fn new(box_width: i32, box_height: i32) -> (bitmap: Option<GlyphBitmap>)
        ensures
            bitmap is Some == bitmap_fits(box_width, box_height),
            bitmap matches Some(b) ==> b.wf() && b@ == (GlyphBitmapView {
                width: (box_width + 2) as u32,
                height: (box_height + 2) as u32,
                pixels: Seq::new(((box_width + 2) * (box_height + 2)) as nat, |i: int| 0u8),
            }),
    {
        if box_width < 0 || box_height < 0 || box_width > 0x7FFF_FFFD || box_height > 0x7FFF_FFFD {
            return None;
        }
        let width: u32 = box_width as u32 + 2;
        let height: u32 = box_height as u32 + 2;
        assert(width * height <= 0x3FFF_FFFF_0000_0001) by (nonlinear_arith)
            requires
                width <= 0x7FFF_FFFF,
                height <= 0x7FFF_FFFF,
        ;
        let count: u64 = (width as u64) * (height as u64);
        if count > (isize::MAX as u64) / 4 {
            return None;
        }
        let n: usize = count as usize;
        let pixels: Vec<u8> = vec![0u8; n];
        assert(pixels@ =~= Seq::new(n as nat, |i: int| 0u8));
        Some(GlyphBitmap { width, height, pixels })
    }

    /// Sets the coverage of the pixel `(x, y)` of the glyph's box.
    pub fn set(&mut self, x: u32, y: u32, coverage: u8)
        requires
            old(self).wf(),
            x + 2 < old(self)@.width,
            y + 2 < old(self)@.height,
        ensures
            final(self).wf(),
            final(self)@ == (GlyphBitmapView {
                pixels: old(self)@.pixels.update(
                    pixel_position(x, y, old(self)@.width),
                    coverage,
                ),
                ..old(self)@
            }),
    {
        assert((y + 1) * self.width + (x + 1) < self.width * self.height) by (nonlinear_arith)
            requires
                x + 2 < self.width,
                y + 2 < self.height,
        ;
        assert(0 <= (y + 1) * self.width) by (nonlinear_arith);
        let pos: usize = (x as usize + 1) + (y as usize + 1) * (self.width as usize);
        self.pixels[pos] = coverage;
    }

    /// Makes a texture of the bitmap: white, with the coverage as alpha.
    /// A bitmap without pixels gives the empty texture.
    pub fn texture(&self, dev: &mut Device, settings: &TextureSettings) -> (r: Result<
        Texture,
        ConstructionError,
    >)
        requires
            self.wf(),
        ensures
            old(dev)@.exhausted() ==> final(dev)@ == old(dev)@ && r matches Err(
                ConstructionError::OutOfNames,
            ),
            !old(dev)@.exhausted() ==> final(dev)@ == self@.uploaded(old(dev)@, *settings) && (
            r matches Ok(t) && t@ == self@.texture(old(dev)@)),
    {
        if self.width == 0 || self.height == 0 {
            Texture::empty(dev, settings)
        } else {
            assert(self.pixels@.take(self.width * self.height) =~= self.pixels@);
            Texture::from_memory_alpha(dev, self.pixels.as_slice(), self.width, self.height, settings)
        }
    }
}

impl GlyphBitmapView {
    /// The device after a texture has been made of the bitmap.
    pub open spec fn uploaded(self, d: DeviceView, settings: TextureSettings) -> DeviceView {
        if self.width == 0 || self.height == 0 {
            created(d, seq![0u8, 0u8, 0u8, 0u8], [1u32, 1u32], settings)
        } else {
            created(d, white_with_alpha(self.pixels), [self.width, self.height], settings)
        }
    }

    /// The texture that is made of the bitmap.
    pub open spec fn texture(self, d: DeviceView) -> TextureView {
        if self.width == 0 || self.height == 0 {
            TextureView { id: d.fresh(), width: 1, height: 1 }
        } else {
            TextureView { id: d.fresh(), width: self.width, height: self.height }
        }
    }
}

} // verus!
