//! Textures: their settings, and their creation, update and release on the
//! device.

use vstd::prelude::*;
use crate::error::ConstructionError;
use crate::gl;
use crate::gl::{BlobView, Device, DeviceView, GLenum, GLuint, GlCall};

verus! {

/// Sampling filter.
#[derive(Clone, Copy, Debug, PartialEq, Eq, Structural)]
pub enum Filter {
    /// A weighted linear blend.
    Linear,
    /// Nearest texel.
    Nearest,
}

/// Wrap mode.
#[derive(Clone, Copy, Debug, PartialEq, Eq, Structural)]
pub enum Wrap {
    /// Repeats the texture by ignoring the integer part of the coordinate.
    Repeat,
    /// Repeats the texture and mirrors it, when the integer part of the coordinate is odd.
    MirroredRepeat,
    /// The coordinate will be clamped between 0 and 1.
    ClampToEdge,
    /// Coordinates outside the range from 0 to 1 will be given a border color.
    ClampToBorder,
}

/// Texture format.
#[derive(Clone, Copy, Debug, PartialEq, Eq, Structural)]
pub enum Format {
    /// `(red, green, blue, alpha)` with values 0-255.
    Rgba8,
}

/// Texture creation parameters.
#[derive(Clone, Copy, Debug, PartialEq, Eq)]
pub struct TextureSettings {
    /// Whether the pixels are stored as they are; otherwise they are taken
    /// to be sRGB and converted when sampled.
    pub convert_gamma: bool,
    /// Compress on the device.
    pub compress: bool,
    /// Generate mipmap chain.
    pub generate_mipmap: bool,
    /// Filtering mode for minifying.
    pub min: Filter,
    /// Filtering mode for magnifying.
    pub mag: Filter,
    /// Filtering mode between mipmap levels.
    pub mipmap: Filter,
    /// Wrapping mode for the s coordinate.
    pub wrap_u: Wrap,
    /// Wrapping mode for the t coordinate.
    pub wrap_v: Wrap,
    /// Border color, as bit patterns, used where a wrap mode is `ClampToBorder`.
    pub border_color: [u32; 4],
}

/// The device's enumerant of a plain filter.
pub open spec fn gl_filter(f: Filter) -> GLenum {
    match f {
        Filter::Linear => gl::LINEAR,
        Filter::Nearest => gl::NEAREST,
    }
}

/// The device's enumerant of a wrap mode.
pub open spec fn gl_wrap(w: Wrap) -> GLenum {
    match w {
        Wrap::Repeat => gl::REPEAT,
        Wrap::MirroredRepeat => gl::MIRRORED_REPEAT,
        Wrap::ClampToEdge => gl::CLAMP_TO_EDGE,
        Wrap::ClampToBorder => gl::CLAMP_TO_BORDER,
    }
}

impl TextureSettings {
    /// The settings that [`TextureSettings::new`] returns.
    pub open spec fn initial() -> TextureSettings {
        TextureSettings {
            convert_gamma: false,
            compress: false,
            generate_mipmap: false,
            min: Filter::Linear,
            mag: Filter::Linear,
            mipmap: Filter::Linear,
            wrap_u: Wrap::ClampToEdge,
            wrap_v: Wrap::ClampToEdge,
            border_color: [0u32, 0u32, 0u32, gl::ONE_BITS],
        }
    }

    /// The device's minifying filter: the plain filter where no mipmap is
    /// generated, otherwise the filter that samples within a level as `min`
    /// says and between levels as `mipmap` says.
    pub open spec fn gl_min(self) -> GLenum {
        if !self.generate_mipmap {
            gl_filter(self.min)
        } else {
            match (self.min, self.mipmap) {
                (Filter::Linear, Filter::Linear) => gl::LINEAR_MIPMAP_LINEAR,
                (Filter::Linear, Filter::Nearest) => gl::LINEAR_MIPMAP_NEAREST,
                (Filter::Nearest, Filter::Linear) => gl::NEAREST_MIPMAP_LINEAR,
                (Filter::Nearest, Filter::Nearest) => gl::NEAREST_MIPMAP_NEAREST,
            }
        }
    }

    /// The format that the device stores the pixels in.
    pub open spec fn internal_format(self) -> GLenum {
        if self.convert_gamma {
            gl::RGBA
        } else {
            gl::SRGB_ALPHA
        }
    }

    /// Whether the border color matters.
    pub open spec fn clamps_to_border(self) -> bool {
        self.wrap_u == Wrap::ClampToBorder || self.wrap_v == Wrap::ClampToBorder
    }

    /// The commands that apply the settings to the texture that is bound.
    pub open spec fn calls(self) -> Seq<GlCall> {
        seq![
            GlCall::TexParameteri {
                target: gl::TEXTURE_2D,
                parameter: gl::TEXTURE_MIN_FILTER,
                value: self.gl_min() as i32,
            },
            GlCall::TexParameteri {
                target: gl::TEXTURE_2D,
                parameter: gl::TEXTURE_MAG_FILTER,
                value: gl_filter(self.mag) as i32,
            },
            GlCall::TexParameteri {
                target: gl::TEXTURE_2D,
                parameter: gl::TEXTURE_WRAP_S,
                value: gl_wrap(self.wrap_u) as i32,
            },
            GlCall::TexParameteri {
                target: gl::TEXTURE_2D,
                parameter: gl::TEXTURE_WRAP_T,
                value: gl_wrap(self.wrap_v) as i32,
            },
        ] + (if self.clamps_to_border() {
            seq![
                GlCall::TexParameterfv {
                    target: gl::TEXTURE_2D,
                    parameter: gl::TEXTURE_BORDER_COLOR,
                    r: self.border_color[0],
                    g: self.border_color[1],
                    b: self.border_color[2],
                    a: self.border_color[3],
                },
            ]
        } else {
            Seq::empty()
        }) + (if self.generate_mipmap {
            seq![GlCall::GenerateMipmap(gl::TEXTURE_2D)]
        } else {
            Seq::empty()
        })
    }

    /// Create default settings: linear filters, no mipmap, coordinates
    /// clamped to the edge, an opaque black border, pixels taken as sRGB.
    pub fn new() -> (settings: TextureSettings)
        ensures
            settings == TextureSettings::initial(),
    {
        let settings = TextureSettings {
            convert_gamma: false,
            compress: false,
            generate_mipmap: false,
            min: Filter::Linear,
            mag: Filter::Linear,
            mipmap: Filter::Linear,
            wrap_u: Wrap::ClampToEdge,
            wrap_v: Wrap::ClampToEdge,
            border_color: [0, 0, 0, gl::ONE_BITS],
        };
        settings
    }

    /// The device's magnifying filter.
    pub fn get_gl_mag(&self) -> (r: GLenum)
        ensures
            r == gl_filter(self.mag),
    {
        match self.mag {
            Filter::Linear => gl::LINEAR,
            Filter::Nearest => gl::NEAREST,
        }
    }

    /// The device's minifying filter.
    pub fn get_gl_min(&self) -> (r: GLenum)
        ensures
            r == self.gl_min(),
    {
        match self.min {
            Filter::Linear => {
                if self.generate_mipmap {
                    match self.mipmap {
                        Filter::Linear => gl::LINEAR_MIPMAP_LINEAR,
                        Filter::Nearest => gl::LINEAR_MIPMAP_NEAREST,
                    }
                } else {
                    gl::LINEAR
                }
            },
            Filter::Nearest => {
                if self.generate_mipmap {
                    match self.mipmap {
                        Filter::Linear => gl::NEAREST_MIPMAP_LINEAR,
                        Filter::Nearest => gl::NEAREST_MIPMAP_NEAREST,
                    }
                } else {
                    gl::NEAREST
                }
            },
        }
    }

    /// The device's filter between mipmap levels.
    pub fn get_gl_mipmap(&self) -> (r: GLenum)
        ensures
            r == gl_filter(self.mipmap),
    {
        match self.mipmap {
            Filter::Linear => gl::LINEAR,
            Filter::Nearest => gl::NEAREST,
        }
    }

    /// The device's wrap mode for the s coordinate.
    pub fn get_gl_wrap_u(&self) -> (r: GLenum)
        ensures
            r == gl_wrap(self.wrap_u),
    {
        match self.wrap_u {
            Wrap::Repeat => gl::REPEAT,
            Wrap::MirroredRepeat => gl::MIRRORED_REPEAT,
            Wrap::ClampToEdge => gl::CLAMP_TO_EDGE,
            Wrap::ClampToBorder => gl::CLAMP_TO_BORDER,
        }
    }

    /// The device's wrap mode for the t coordinate.
    pub fn get_gl_wrap_v(&self) -> (r: GLenum)
        ensures
            r == gl_wrap(self.wrap_v),
    {
        match self.wrap_v {
            Wrap::Repeat => gl::REPEAT,
            Wrap::MirroredRepeat => gl::MIRRORED_REPEAT,
            Wrap::ClampToEdge => gl::CLAMP_TO_EDGE,
            Wrap::ClampToBorder => gl::CLAMP_TO_BORDER,
        }
    }
}

/// Wraps OpenGL texture data: the name of a device texture and its size in
/// pixels. A texture cannot be copied, and releasing it uses it up.
pub struct Texture {
    id: GLuint,
    width: u32,
    height: u32,
}

/// What a [`Texture`] holds.
pub struct TextureView {
    pub id: GLuint,
    pub width: u32,
    pub height: u32,
}

impl View for Texture {
    type V = TextureView;

    closed spec fn view(&self) -> TextureView {
        TextureView { id: self.id, width: self.width, height: self.height }
    }
}

/// Whether `length` bytes are four for each pixel of a `width` by `height`
/// image whose sides the device can take.
pub open spec fn pixels_fit(length: nat, width: u32, height: u32) -> bool {
    width <= i32::MAX && height <= i32::MAX && length == width * height * 4
}

/// Whether `length` bytes are at least one for each pixel of a `width` by
/// `height` image whose sides the device can take, and whose pixels, at
/// four bytes each, fit into one buffer.
pub open spec fn alpha_fits(length: nat, width: u32, height: u32) -> bool {
    width <= i32::MAX && height <= i32::MAX && width * height <= length && width * height * 4
        <= isize::MAX
}

/// The four-byte pixels of an image that is white everywhere and has the
/// given alpha values.
pub open spec fn white_with_alpha(alpha: Seq<u8>) -> Seq<u8> {
    Seq::new(
        4 * alpha.len(),
        |i: int|
            if i % 4 == 3 {
                alpha[i / 4]
            } else {
                255u8
            },
    )
}

/// The device after a texture has been created from `memory`: a name is
/// reserved and bound, the settings are applied, and the pixels handed over.
pub open spec fn created(
    d: DeviceView,
    memory: Seq<u8>,
    size: [u32; 2],
    settings: TextureSettings,
) -> DeviceView {
    d.named(GlCall::GenTexture(d.fresh())).followed_by(
        seq![GlCall::BindTexture { target: gl::TEXTURE_2D, texture: d.fresh() }]
            + settings.calls(),
    ).call_with(
        GlCall::TexImage2D {
            target: gl::TEXTURE_2D,
            level: 0,
            internal_format: settings.internal_format() as i32,
            width: size[0] as i32,
            height: size[1] as i32,
            border: 0,
            format: gl::RGBA,
            ty: gl::UNSIGNED_BYTE,
        },
        BlobView::Bytes(memory),
    )
}

/// The device after a region of the texture `id` has been given new pixels.
pub open spec fn updated(
    d: DeviceView,
    id: GLuint,
    memory: Seq<u8>,
    offset: [u32; 2],
    size: [u32; 2],
) -> DeviceView {
    d.call(GlCall::BindTexture { target: gl::TEXTURE_2D, texture: id }).call_with(
        GlCall::TexSubImage2D {
            target: gl::TEXTURE_2D,
            level: 0,
            x_offset: offset[0] as i32,
            y_offset: offset[1] as i32,
            width: size[0] as i32,
            height: size[1] as i32,
            format: gl::RGBA,
            ty: gl::UNSIGNED_BYTE,
        },
        BlobView::Bytes(memory),
    )
}

/// Whether `length` is four times the product of the sides, and the sides
/// are within the device's range.
fn check_pixels(length: usize, width: u32, height: u32) -> (r: bool)
    ensures
        r == pixels_fit(length as nat, width, height),
{
    if width > 0x7FFF_FFFF || height > 0x7FFF_FFFF {
        return false;
    }
    assert(width * height * 4 <= 0xFFFF_FFFF_FFFF_FFFF) by (nonlinear_arith)
        requires
            width <= 0x7FFF_FFFF,
            height <= 0x7FFF_FFFF,
    ;
    assert(width * height <= 0xFFFF_FFFF_FFFF_FFFF) by (nonlinear_arith)
        requires
            width <= 0x7FFF_FFFF,
            height <= 0x7FFF_FFFF,
    ;
    let expected: u64 = (width as u64) * (height as u64) * 4;
    length as u64 == expected
}

/// Converts from alpha to rgba8: walks the first `width * height` bytes of
/// `memory` and writes, for each, three bytes of 255 and then the byte
/// itself.
fn alpha_to_rgba8(memory: &[u8], size: [u32; 2]) -> (res: Vec<u8>)
    requires
        size[0] * size[1] <= memory@.len(),
        size[0] * size[1] * 4 <= isize::MAX,
    ensures
        res@ == white_with_alpha(memory@.take(size[0] * size[1])),
{
    let count: usize = (size[0] as usize) * (size[1] as usize);
    let mut res: Vec<u8> = Vec::with_capacity(count * 4);
    let mut i: usize = 0;
    while i < count
        invariant
            i <= count <= memory@.len(),
            count * 4 <= isize::MAX,
            res@ =~= white_with_alpha(memory@.take(i as int)),
        decreases count - i,
    {
        res.push(255);
        res.push(255);
        res.push(255);
        res.push(memory[i]);
        i = i + 1;
    }
    res
}

impl Texture {
    /// Creates a new texture.
    #[inline(always)]
    pub fn new(id: GLuint, width: u32, height: u32) -> (texture: Texture)
        ensures
            texture@ == (TextureView { id, width, height }),
    {
        Texture { id, width, height }
    }

    /// Gets the OpenGL id of the texture.
    #[inline(always)]
    pub fn get_id(&self) -> (id: GLuint)
        ensures
            id == self@.id,
    {
        self.id
    }

    /// Gets the size of the texture in pixels, width first.
    pub fn get_size(&self) -> (size: (u32, u32))
        ensures
            size == (self@.width, self@.height),
    {
        (self.width, self.height)
    }

    /// Creates a texture from `memory`, which holds four bytes for each
    /// pixel, row by row.
    ///
    /// A buffer of another length, or a side beyond the device's range, is
    /// refused and nothing is sent to the device. Where the device has no
    /// name left, there is no texture either.
    pub fn create(
        dev: &mut Device,
        _format: Format,
        memory: &[u8],
        size: [u32; 2],
        settings: &TextureSettings,
    ) -> (r: Result<Texture, ConstructionError>)
        ensures
            pixels_fit(memory@.len(), size[0], size[1]) && !old(dev)@.exhausted() ==> (r matches Ok(
                t,
            ) && t@ == (TextureView {
                id: old(dev)@.fresh(),
                width: size[0],
                height: size[1],
            })) && final(dev)@ == created(old(dev)@, memory@, size, *settings),
            pixels_fit(memory@.len(), size[0], size[1]) && old(dev)@.exhausted() ==> final(dev)@
                == old(dev)@ && r matches Err(ConstructionError::OutOfNames),
            !pixels_fit(memory@.len(), size[0], size[1]) ==> final(dev)@ == old(dev)@ && r == Err::<
                Texture,
                ConstructionError,
            >(
                ConstructionError::PixelLength {
                    width: size[0],
                    height: size[1],
                    length: memory@.len() as usize,
                },
            ),
    {
        if !check_pixels(memory.len(), size[0], size[1]) {
            return Err(
                ConstructionError::PixelLength {
                    width: size[0],
                    height: size[1],
                    length: memory.len(),
                },
            );
        }
        let internal_format: GLenum = if settings.convert_gamma {
            gl::RGBA
        } else {
            gl::SRGB_ALPHA
        };
        let id: GLuint = gl::GenTextures(dev);
        if id == 0 {
            return Err(ConstructionError::OutOfNames);
        }
        let ghost d0 = dev@;
        gl::BindTexture(dev, gl::TEXTURE_2D, id);
        gl::TexParameteri(dev, gl::TEXTURE_2D, gl::TEXTURE_MIN_FILTER, settings.get_gl_min() as i32);
        gl::TexParameteri(dev, gl::TEXTURE_2D, gl::TEXTURE_MAG_FILTER, settings.get_gl_mag() as i32);
        gl::TexParameteri(dev, gl::TEXTURE_2D, gl::TEXTURE_WRAP_S, settings.get_gl_wrap_u() as i32);
        gl::TexParameteri(dev, gl::TEXTURE_2D, gl::TEXTURE_WRAP_T, settings.get_gl_wrap_v() as i32);
        if settings.wrap_u == Wrap::ClampToBorder || settings.wrap_v == Wrap::ClampToBorder {
            gl::TexParameterfv(dev, gl::TEXTURE_2D, gl::TEXTURE_BORDER_COLOR, &settings.border_color);
        }
        if settings.generate_mipmap {
            gl::GenerateMipmap(dev, gl::TEXTURE_2D);
        }
        assert(dev@.calls =~= d0.followed_by(
            seq![GlCall::BindTexture { target: gl::TEXTURE_2D, texture: id }] + settings.calls(),
        ).calls);
        gl::TexImage2D(
            dev,
            gl::TEXTURE_2D,
            0,
            internal_format as i32,
            size[0] as i32,
            size[1] as i32,
            0,
            gl::RGBA,
            gl::UNSIGNED_BYTE,
            memory,
        );
        Ok(Texture::new(id, size[0], size[1]))
    }

    /// Returns empty texture: one pixel, all zero. Where the device has no
    /// name left, there is none.
    pub fn empty(dev: &mut Device, settings: &TextureSettings) -> (r: Result<
        Texture,
        ConstructionError,
    >)
        ensures
            !old(dev)@.exhausted() ==> (r matches Ok(t) && t@ == (TextureView {
                id: old(dev)@.fresh(),
                width: 1,
                height: 1,
            })) && final(dev)@ == created(
                old(dev)@,
                seq![0u8, 0u8, 0u8, 0u8],
                [1u32, 1u32],
                *settings,
            ),
            old(dev)@.exhausted() ==> final(dev)@ == old(dev)@ && r matches Err(
                ConstructionError::OutOfNames,
            ),
    {
        let memory: [u8; 4] = [0, 0, 0, 0];
        let size: [u32; 2] = [1, 1];
        Texture::create(dev, Format::Rgba8, memory.as_slice(), size, settings)
    }

    /// Loads image from memory, the format is 8-bit greyscale: one byte for
    /// each pixel, row by row, which becomes the pixel's alpha; the pixel
    /// itself is white.
    ///
    /// A buffer that is too short, or a side beyond the device's range, is
    /// refused and nothing is sent to the device. Where the device has no
    /// name left, there is no texture either.
    pub fn from_memory_alpha(
        dev: &mut Device,
        buf: &[u8],
        width: u32,
        height: u32,
        settings: &TextureSettings,
    ) -> (r: Result<Texture, ConstructionError>)
        ensures
            alpha_fits(buf@.len(), width, height) && !old(dev)@.exhausted() ==> (r matches Ok(t)
                && t@ == (TextureView { id: old(dev)@.fresh(), width, height })) && final(dev)@
                == created(
                old(dev)@,
                white_with_alpha(buf@.take(width * height)),
                [width, height],
                *settings,
            ),
            alpha_fits(buf@.len(), width, height) && old(dev)@.exhausted() ==> final(dev)@ == old(
                dev,
            )@ && r matches Err(ConstructionError::OutOfNames),
            !alpha_fits(buf@.len(), width, height) ==> final(dev)@ == old(dev)@ && r == Err::<
                Texture,
                ConstructionError,
            >(ConstructionError::PixelLength { width, height, length: buf@.len() as usize }),
    {
        let size: [u32; 2] = [width, height];
        if !check_alpha(buf.len(), width, height) {
            return Err(ConstructionError::PixelLength { width, height, length: buf.len() });
        }
        let buffer = alpha_to_rgba8(buf, size);
        Texture::create(dev, Format::Rgba8, buffer.as_slice(), size, settings)
    }

    /// Updates a region of the image with new pixels, four bytes each. The
    /// texture keeps its name and its recorded size.
    ///
    /// A buffer of another length than the region takes, or an offset or a
    /// side beyond the device's range, is refused and nothing is sent to
    /// the device.
    pub fn update(
        &mut self,
        dev: &mut Device,
        _format: Format,
        memory: &[u8],
        offset: [u32; 2],
        size: [u32; 2],
    ) -> (r: Result<(), ConstructionError>)
        ensures
            *final(self) == *old(self),
            region_fits(memory@.len(), offset, size) ==> r is Ok && final(dev)@ == updated(
                old(dev)@,
                old(self)@.id,
                memory@,
                offset,
                size,
            ),
            !region_fits(memory@.len(), offset, size) ==> final(dev)@ == old(dev)@ && r == Err::<
                (),
                ConstructionError,
            >(
                ConstructionError::PixelLength {
                    width: size[0],
                    height: size[1],
                    length: memory@.len() as usize,
                },
            ),
    {
        if offset[0] > 0x7FFF_FFFF || offset[1] > 0x7FFF_FFFF || !check_pixels(
            memory.len(),
            size[0],
            size[1],
        ) {
            return Err(
                ConstructionError::PixelLength {
                    width: size[0],
                    height: size[1],
                    length: memory.len(),
                },
            );
        }
        gl::BindTexture(dev, gl::TEXTURE_2D, self.id);
        gl::TexSubImage2D(
            dev,
            gl::TEXTURE_2D,
            0,
            offset[0] as i32,
            offset[1] as i32,
            size[0] as i32,
            size[1] as i32,
            gl::RGBA,
            gl::UNSIGNED_BYTE,
            memory,
        );
        Ok(())
    }

    /// Releases the device texture. The texture is used up.
    pub fn delete(self, dev: &mut Device)
        ensures
            final(dev)@ == old(dev)@.call(GlCall::DeleteTexture(self@.id)),
    {
        let ids: [GLuint; 1] = [self.id];
        gl::DeleteTextures(dev, ids.as_slice());
        assert(ids@.map_values(|t: GLuint| GlCall::DeleteTexture(t)) =~= seq![
            GlCall::DeleteTexture(self.id),
        ]);
        assert(old(dev)@.calls + seq![GlCall::DeleteTexture(self.id)] =~= old(dev)@.calls.push(
            GlCall::DeleteTexture(self.id),
        ));
    }
}

/// Whether `length` bytes are four for each pixel of a region of the given
/// size, and the region's offset and sides are within the device's range.
pub open spec fn region_fits(length: nat, offset: [u32; 2], size: [u32; 2]) -> bool {
    offset[0] <= i32::MAX && offset[1] <= i32::MAX && pixels_fit(length, size[0], size[1])
}

fn check_alpha(length: usize, width: u32, height: u32) -> (r: bool)
    ensures
        r == alpha_fits(length as nat, width, height),
{
    if width > 0x7FFF_FFFF || height > 0x7FFF_FFFF {
        return false;
    }
    assert(width * height * 4 <= 0xFFFF_FFFF_FFFF_FFFF) by (nonlinear_arith)
        requires
            width <= 0x7FFF_FFFF,
            height <= 0x7FFF_FFFF,
    ;
    assert(0 <= width * height <= width * height * 4) by (nonlinear_arith)
        requires
            width >= 0,
            height >= 0,
    ;
    let pixels: u64 = (width as u64) * (height as u64);
    pixels <= length as u64 && pixels * 4 <= isize::MAX as u64
}

} // verus!
