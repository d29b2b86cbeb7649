//! The OpenGL vocabulary of the back end: scalar types, the enumerants that
//! are used, and a device that records commands instead of issuing them.
//!
//! Floating-point arguments travel as IEEE 754 single-precision bit patterns
//! in a `u32`, so that a recorded command is a plain value that can be
//! compared and replayed bit for bit.

use vstd::prelude::*;
use vstd::slice::slice_to_vec;

verus! {

pub type GLenum = u32;

pub type GLuint = u32;

pub type GLint = i32;

pub type GLsizei = i32;

pub type GLboolean = u8;

pub type GLbitfield = u32;

pub const FALSE: GLboolean = 0;

pub const TRUE: GLboolean = 1;

pub const ARRAY_BUFFER: GLenum = 0x8892;

pub const BLEND: GLenum = 0x0BE2;

pub const CLAMP_TO_BORDER: GLenum = 0x812D;

pub const CLAMP_TO_EDGE: GLenum = 0x812F;

pub const COLOR_BUFFER_BIT: GLenum = 0x0000_4000;

pub const CONSTANT_COLOR: GLenum = 0x8001;

pub const CULL_FACE: GLenum = 0x0B44;

pub const DEPTH_BUFFER_BIT: GLenum = 0x0000_0100;

pub const DST_ALPHA: GLenum = 0x0304;

pub const DST_COLOR: GLenum = 0x0306;

pub const DYNAMIC_DRAW: GLenum = 0x88E8;

pub const EQUAL: GLenum = 0x0202;

pub const FLOAT: GLenum = 0x1406;

pub const FRAGMENT_SHADER: GLenum = 0x8B30;

pub const FRAMEBUFFER_SRGB: GLenum = 0x8DB9;

pub const FUNC_ADD: GLenum = 0x8006;

pub const FUNC_SUBTRACT: GLenum = 0x800A;

pub const KEEP: GLenum = 0x1E00;

pub const LINEAR: GLenum = 0x2601;

pub const LINEAR_MIPMAP_LINEAR: GLenum = 0x2703;

pub const LINEAR_MIPMAP_NEAREST: GLenum = 0x2701;

pub const MIRRORED_REPEAT: GLenum = 0x8370;

pub const NEAREST: GLenum = 0x2600;

pub const NEAREST_MIPMAP_LINEAR: GLenum = 0x2702;

pub const NEAREST_MIPMAP_NEAREST: GLenum = 0x2700;

pub const NEVER: GLenum = 0x0200;

pub const NOTEQUAL: GLenum = 0x0205;

pub const ONE: GLenum = 1;

pub const ONE_MINUS_SRC_ALPHA: GLenum = 0x0303;

pub const REPEAT: GLenum = 0x2901;

pub const REPLACE: GLenum = 0x1E01;

pub const RGBA: GLenum = 0x1908;

pub const SCISSOR_TEST: GLenum = 0x0C11;

pub const SRC_ALPHA: GLenum = 0x0302;

pub const SRC_COLOR: GLenum = 0x0300;

pub const SRGB_ALPHA: GLenum = 0x8C42;

pub const STENCIL_BUFFER_BIT: GLenum = 0x0000_0400;

pub const STENCIL_TEST: GLenum = 0x0B90;

pub const TEXTURE_2D: GLenum = 0x0DE1;

pub const TEXTURE_BORDER_COLOR: GLenum = 0x1004;

pub const TEXTURE_MAG_FILTER: GLenum = 0x2800;

pub const TEXTURE_MIN_FILTER: GLenum = 0x2801;

pub const TEXTURE_WRAP_S: GLenum = 0x2802;

pub const TEXTURE_WRAP_T: GLenum = 0x2803;

pub const TRIANGLES: GLenum = 0x0004;

pub const UNSIGNED_BYTE: GLenum = 0x1401;

pub const VERTEX_SHADER: GLenum = 0x8B31;

pub const ZERO: GLenum = 0;

/// The bit pattern of `1.0`.
pub const ONE_BITS: u32 = 0x3F80_0000;

/// One recorded command.
///
/// Bulk arguments (vertex data, pixels, text) are not stored in the command:
/// a command that carries one takes the next entry of the device's data
/// stream. The commands whose name starts with `Get` are questions, which the
/// device answers with a [`Reply`].
#[allow(inconsistent_fields)]
#[derive(Clone, Copy, Debug, PartialEq, Eq, Structural)]
pub enum GlCall {
    BindTexture { target: GLenum, texture: GLuint },
    TexParameteri { target: GLenum, parameter: GLenum, value: GLint },
    GenerateMipmap(GLenum),
    LinkProgram(GLuint),
    UseProgram(GLuint),
    DeleteProgram(GLuint),
    GetLinkStatus(GLuint),
    GetProgramInfoLog(GLuint),
    ProgramUniform1f { program: GLuint, location: GLint, value: u32 },
    ProgramUniform1i { program: GLuint, location: GLint, value: GLint },
    ProgramUniform2f { program: GLuint, location: GLint, x: u32, y: u32 },
    ProgramUniform3f { program: GLuint, location: GLint, x: u32, y: u32, z: u32 },
    ProgramUniform4f { program: GLuint, location: GLint, x: u32, y: u32, z: u32, w: u32 },
    Uniform4f { location: GLint, x: u32, y: u32, z: u32, w: u32 },
    DeleteBuffer(GLuint),
    BindVertexArray(GLuint),
    DeleteVertexArray(GLuint),
    BindBuffer { target: GLenum, buffer: GLuint },
    VertexAttribPointer { index: GLuint, size: GLint, data_type: GLenum, normalized: GLboolean, stride: GLsizei, offset: GLint },
    EnableVertexAttribArray(GLuint),
    CompileShader(GLuint),
    GetCompileStatus(GLuint),
    GetShaderInfoLog(GLuint),
    AttachShader { program: GLuint, shader: GLuint },
    DeleteShader(GLuint),
    Enable(GLenum),
    Disable(GLenum),
    DrawArrays { mode: GLenum, first: GLint, count: GLsizei },
    Viewport { x: GLint, y: GLint, width: GLsizei, height: GLsizei },
    ClearColor { red: u32, green: u32, blue: u32, alpha: u32 },
    Clear(GLbitfield),
    ClearStencil(GLint),
    Scissor { x: GLint, y: GLint, width: GLsizei, height: GLsizei },
    StencilFunc { func: GLenum, reference: GLint, mask: GLuint },
    StencilMask(GLuint),
    StencilOp { fail: GLenum, zfail: GLenum, zpass: GLenum },
    BlendColor { red: u32, green: u32, blue: u32, alpha: u32 },
    BlendEquationSeparate { mode_rgb: GLenum, mode_alpha: GLenum },
    BlendFuncSeparate { sfactor_rgb: GLenum, dfactor_rgb: GLenum, sfactor_alpha: GLenum, dfactor_alpha: GLenum },
    GenTexture(GLuint),
    CreateProgram(GLuint),
    GenVertexArray(GLuint),
    GenBuffer(GLuint),
    DeleteTexture(GLuint),
    TexParameterfv { target: GLenum, parameter: GLenum, r: u32, g: u32, b: u32, a: u32 },
    /// Carries the pixels as bytes.
    TexImage2D {
        target: GLenum,
        level: GLint,
        internal_format: GLint,
        width: GLsizei,
        height: GLsizei,
        border: GLint,
        format: GLenum,
        ty: GLenum,
    },
    /// Carries the pixels as bytes.
    TexSubImage2D {
        target: GLenum,
        level: GLint,
        x_offset: GLint,
        y_offset: GLint,
        width: GLsizei,
        height: GLsizei,
        format: GLenum,
        ty: GLenum,
    },
    /// Carries the name of the uniform as text. The device answers with a location.
    GetUniformLocation { program: GLuint },
    /// Carries the name of the attribute as text. The device answers with a location.
    GetAttribLocation { program: GLuint },
    /// Carries the name of the fragment output as text.
    BindFragDataLocation { program: GLuint, color: GLuint },
    /// Carries the matrices as words.
    ProgramUniformMatrix2fv { program: GLuint, location: GLint, count: GLint, transpose: GLboolean },
    /// Carries the matrices as words.
    ProgramUniformMatrix3fv { program: GLuint, location: GLint, count: GLint, transpose: GLboolean },
    /// Carries the matrices as words.
    ProgramUniformMatrix4fv { program: GLuint, location: GLint, count: GLint, transpose: GLboolean },
    /// Carries the new contents of the buffer.
    BufferData { target: GLenum, usage: GLenum },
    CreateShader { shader: GLuint, shader_type: GLenum },
    /// Carries the source as text.
    ShaderSource(GLuint),
}

/// A bulk argument of a command.
#[derive(Clone, Debug, PartialEq, Eq)]
pub enum Blob {
    /// Two-component vertex attributes.
    Vec2(Vec<[u32; 2]>),
    /// Four-component vertex attributes.
    Vec4(Vec<[u32; 4]>),
    /// Scalars.
    Words(Vec<u32>),
    /// Raw bytes, such as pixels.
    Bytes(Vec<u8>),
    /// Text, such as shader source or the name of a shader variable.
    Text(String),
}

/// What a [`Blob`] holds.
pub enum BlobView {
    Vec2(Seq<[u32; 2]>),
    Vec4(Seq<[u32; 4]>),
    Words(Seq<u32>),
    Bytes(Seq<u8>),
    Text(Seq<char>),
}

impl View for Blob {
    type V = BlobView;

    open spec fn view(&self) -> BlobView {
        match *self {
            Blob::Vec2(v) => BlobView::Vec2(v@),
            Blob::Vec4(v) => BlobView::Vec4(v@),
            Blob::Words(v) => BlobView::Words(v@),
            Blob::Bytes(v) => BlobView::Bytes(v@),
            Blob::Text(s) => BlobView::Text(s@),
        }
    }
}

/// Whether the command takes an entry of the data stream.
pub open spec fn carries_data(c: GlCall) -> bool {
    match c {
        GlCall::TexImage2D { .. }
        | GlCall::TexSubImage2D { .. }
        | GlCall::GetUniformLocation { .. }
        | GlCall::GetAttribLocation { .. }
        | GlCall::BindFragDataLocation { .. }
        | GlCall::ProgramUniformMatrix2fv { .. }
        | GlCall::ProgramUniformMatrix3fv { .. }
        | GlCall::ProgramUniformMatrix4fv { .. }
        | GlCall::BufferData { .. }
        | GlCall::ShaderSource(_) => true,
        _ => false,
    }
}

/// Whether `b` is data of the kind that the command `c` takes: bytes for
/// the pixels of an image, text for a source or a name, words for matrices,
/// and anything for the contents of a buffer.
pub open spec fn takes(c: GlCall, b: BlobView) -> bool {
    match c {
        GlCall::TexImage2D { .. } | GlCall::TexSubImage2D { .. } => b is Bytes,
        GlCall::GetUniformLocation { .. }
        | GlCall::GetAttribLocation { .. }
        | GlCall::BindFragDataLocation { .. }
        | GlCall::ShaderSource(_) => b is Text,
        GlCall::ProgramUniformMatrix2fv { .. }
        | GlCall::ProgramUniformMatrix3fv { .. }
        | GlCall::ProgramUniformMatrix4fv { .. } => b is Words,
        GlCall::BufferData { .. } => true,
        _ => false,
    }
}

/// Whether the data stream `blobs` holds exactly the data of the commands
/// `calls`: one entry, of the right kind, for each command that carries
/// data, in the order of the commands.
pub open spec fn paired(calls: Seq<GlCall>, blobs: Seq<BlobView>) -> bool
    decreases calls.len(),
{
    if calls.len() == 0 {
        blobs.len() == 0
    } else if carries_data(calls.last()) {
        blobs.len() > 0 && takes(calls.last(), blobs.last()) && paired(
            calls.drop_last(),
            blobs.drop_last(),
        )
    } else {
        paired(calls.drop_last(), blobs)
    }
}

/// What the device answers to a question.
#[derive(Clone, Debug, PartialEq, Eq)]
pub enum Reply {
    /// Whether a compilation or a link succeeded.
    Status(bool),
    /// A diagnostic log.
    Log(String),
    /// The location of a shader variable; negative when there is none.
    Location(GLint),
}

/// What a [`Reply`] holds.
pub enum ReplyView {
    Status(bool),
    Log(Seq<char>),
    Location(GLint),
}

impl View for Reply {
    type V = ReplyView;

    open spec fn view(&self) -> ReplyView {
        match *self {
            Reply::Status(ok) => ReplyView::Status(ok),
            Reply::Log(log) => ReplyView::Log(log@),
            Reply::Location(id) => ReplyView::Location(id),
        }
    }
}

/// What a device has recorded so far.
pub struct DeviceView {
    /// The commands, oldest first.
    pub calls: Seq<GlCall>,
    /// The bulk arguments, in the order of the commands that carry them.
    pub blobs: Seq<BlobView>,
    /// How many object names have been handed out.
    pub names: nat,
}

impl DeviceView {
    /// The state after one more command.
    pub open spec fn call(self, c: GlCall) -> DeviceView {
        DeviceView { calls: self.calls.push(c), ..self }
    }

    /// The state after one more command that carries `b`.
    pub open spec fn call_with(self, c: GlCall, b: BlobView) -> DeviceView {
        DeviceView { calls: self.calls.push(c), blobs: self.blobs.push(b), ..self }
    }

    /// The state after the commands `cs`, none of which carries data.
    pub open spec fn followed_by(self, cs: Seq<GlCall>) -> DeviceView {
        DeviceView { calls: self.calls + cs, ..self }
    }

    /// Whether every name has been handed out.
    pub open spec fn exhausted(self) -> bool {
        self.names >= u32::MAX
    }

    /// The name that the next reservation returns: names count up from one,
    /// and zero means that none is left.
    pub open spec fn fresh(self) -> GLuint {
        if self.names < u32::MAX {
            (self.names + 1) as u32
        } else {
            0
        }
    }

    /// The state after a reservation that is announced by `c`. Nothing
    /// happens when no name is left.
    pub open spec fn named(self, c: GlCall) -> DeviceView {
        if self.names < u32::MAX {
            DeviceView { calls: self.calls.push(c), names: self.names + 1, ..self }
        } else {
            self
        }
    }
}

/// A device that records.
///
/// Object names are handed out by the device itself, counting up from one;
/// the owner of the real context maps them to the driver's objects when it
/// replays the commands.
pub struct Device {
    calls: Vec<GlCall>,
    blobs: Vec<Blob>,
    names: u32,
}

impl View for Device {
    type V = DeviceView;

    closed spec fn view(&self) -> DeviceView {
        DeviceView {
            calls: self.calls@,
            blobs: self.blobs@.map_values(|b: Blob| b@),
            names: self.names as nat,
        }
    }
}

impl Device {
    /// Commands and data always go together.
    #[verifier::type_invariant]
    spec fn inv(self) -> bool {
        paired(self.calls@, self.blobs@.map_values(|b: Blob| b@))
    }

    /// A device that has recorded nothing and handed out no name.
    pub fn new() -> (dev: Device)
        ensures
            dev@.calls == Seq::<GlCall>::empty(),
            dev@.blobs == Seq::<BlobView>::empty(),
            dev@.names == 0,
    {
        let dev = Device { calls: Vec::new(), blobs: Vec::new(), names: 0 };
        dev
    }

    /// A device that has recorded nothing and has handed out `names` names
    /// already.
    pub fn starting_after(names: u32) -> (dev: Device)
        ensures
            dev@.calls == Seq::<GlCall>::empty(),
            dev@.blobs == Seq::<BlobView>::empty(),
            dev@.names == names,
    {
        let dev = Device { calls: Vec::new(), blobs: Vec::new(), names };
        dev
    }

    /// The recorded commands, oldest first. The data stream holds exactly
    /// their data.
    pub fn calls(&self) -> (r: &Vec<GlCall>)
        ensures
            r@ == self@.calls,
            paired(self@.calls, self@.blobs),
    {
        proof {
            use_type_invariant(self);
        }
        &self.calls
    }

    /// The recorded bulk arguments, oldest first.
    pub fn blobs(&self) -> (r: &Vec<Blob>)
        ensures
            r@.len() == self@.blobs.len(),
            forall|i: int| 0 <= i < r@.len() ==> (#[trigger] r@[i])@ == self@.blobs[i],
    {
        &self.blobs
    }

    /// How many names have been handed out.
    pub fn names(&self) -> (n: u32)
        ensures
            n == self@.names,
    {
        self.names
    }

    /// Hands the recorded commands and bulk arguments over and starts afresh.
    /// Names that were handed out stay handed out. What is handed over goes
    /// together: the data are exactly those of the commands.
    pub fn take(&mut self) -> (r: (Vec<GlCall>, Vec<Blob>))
        ensures
            paired(old(self)@.calls, old(self)@.blobs),
            r.0@ == old(self)@.calls,
            r.1@.len() == old(self)@.blobs.len(),
            forall|i: int| 0 <= i < r.1@.len() ==> (#[trigger] r.1@[i])@ == old(self)@.blobs[i],
            final(self)@ == (DeviceView {
                calls: Seq::<GlCall>::empty(),
                blobs: Seq::<BlobView>::empty(),
                names: old(self)@.names,
            }),
    {
        let mut taken = Device { calls: Vec::new(), blobs: Vec::new(), names: self.names };
        assert(taken@.blobs =~= Seq::<BlobView>::empty());
        std::mem::swap(self, &mut taken);
        proof {
            use_type_invariant(&taken);
        }
        let Device { calls, blobs, .. } = taken;
        (calls, blobs)
    }

    /// Takes the device's contents out and leaves an empty device behind.
    fn empty_out(&mut self) -> (taken: Device)
        ensures
            taken == *old(self),
            paired(taken.calls@, taken.blobs@.map_values(|b: Blob| b@)),
    {
        let mut taken = Device { calls: Vec::new(), blobs: Vec::new(), names: 0 };
        std::mem::swap(self, &mut taken);
        proof {
            use_type_invariant(&taken);
        }
        taken
    }

    fn record(&mut self, c: GlCall)
        requires
            !carries_data(c),
        ensures
            final(self)@ == old(self)@.call(c),
    {
        let Device { mut calls, blobs, names } = self.empty_out();
        proof {
            assert(calls@.push(c).drop_last() =~= calls@);
        }
        calls.push(c);
        *self = Device { calls, blobs, names };
    }

    fn record_with(&mut self, c: GlCall, b: Blob)
        requires
            takes(c, b@),
        ensures
            final(self)@ == old(self)@.call_with(c, b@),
    {
        let Device { mut calls, mut blobs, names } = self.empty_out();
        proof {
            let views = blobs@.map_values(|b: Blob| b@);
            assert(calls@.push(c).drop_last() =~= calls@);
            assert(blobs@.push(b).map_values(|b: Blob| b@) =~= views.push(b@));
            assert(views.push(b@).drop_last() =~= views);
        }
        calls.push(c);
        blobs.push(b);
        *self = Device { calls, blobs, names };
    }

    fn reserve(&mut self) -> (name: GLuint)
        ensures
            name == old(self)@.fresh(),
            old(self)@.names < u32::MAX ==> final(self)@ == (DeviceView {
                names: old(self)@.names + 1,
                ..old(self)@
            }),
            old(self)@.names >= u32::MAX ==> final(self)@ == old(self)@,
    {
        proof {
            use_type_invariant(&*self);
        }
        if self.names < u32::MAX {
            self.names = self.names + 1;
            self.names
        } else {
            0
        }
    }
}

/// Whether the commands can be recorded. They always can.
pub fn is_loaded() -> (loaded: bool)
    ensures
        loaded,
{
    true
}

/// Deletes every texture of `textures`, in order.
#[allow(non_snake_case)]
pub fn DeleteTextures(dev: &mut Device, textures: &[GLuint])
    ensures
        final(dev)@ == old(dev)@.followed_by(textures@.map_values(|t: GLuint| GlCall::DeleteTexture(t))),
{
    let mut i: usize = 0;
    while i < textures.len()
        invariant
            i <= textures@.len(),
            dev@ == old(dev)@.followed_by(
                textures@.take(i as int).map_values(|t: GLuint| GlCall::DeleteTexture(t)),
            ),
        decreases textures@.len() - i,
    {
        dev.record(GlCall::DeleteTexture(textures[i]));
        proof {
            let f = |t: GLuint| GlCall::DeleteTexture(t);
            assert(textures@.take(i + 1).map_values(f) =~= textures@.take(i as int).map_values(
                f,
            ).push(GlCall::DeleteTexture(textures@[i as int])));
        }
        i = i + 1;
    }
    assert(textures@.take(i as int) =~= textures@);
}

/// Sets a four-component parameter of the texture bound to `target`.
#[allow(non_snake_case)]
pub fn TexParameterfv(dev: &mut Device, target: GLenum, parameter: GLenum, values: &[u32; 4])
    ensures
        final(dev)@ == old(dev)@.call(
            GlCall::TexParameterfv {
                target,
                parameter,
                r: values[0],
                g: values[1],
                b: values[2],
                a: values[3],
            },
        ),
{
    dev.record(
        GlCall::TexParameterfv {
            target,
            parameter,
            r: values[0],
            g: values[1],
            b: values[2],
            a: values[3],
        },
    );
}

/// Gives the texture bound to `target` a new image of `width` by `height`
/// pixels, four bytes each.
#[allow(non_snake_case)]
pub fn TexImage2D(
    dev: &mut Device,
    target: GLenum,
    level: GLint,
    internal_format: GLint,
    width: GLsizei,
    height: GLsizei,
    border: GLint,
    format: GLenum,
    ty: GLenum,
    pixels: &[u8],
)
    requires
        0 <= width,
        0 <= height,
        pixels@.len() == width * height * 4,
    ensures
        final(dev)@ == old(dev)@.call_with(
            GlCall::TexImage2D { target, level, internal_format, width, height, border, format, ty },
            BlobView::Bytes(pixels@),
        ),
{
    dev.record_with(
        GlCall::TexImage2D { target, level, internal_format, width, height, border, format, ty },
        Blob::Bytes(slice_to_vec(pixels)),
    );
}

/// Replaces a `width` by `height` region of the image of the texture bound
/// to `target`, four bytes a pixel.
#[allow(non_snake_case)]
pub fn TexSubImage2D(
    dev: &mut Device,
    target: GLenum,
    level: GLint,
    x_offset: GLint,
    y_offset: GLint,
    width: GLsizei,
    height: GLsizei,
    format: GLenum,
    ty: GLenum,
    pixels: &[u8],
)
    requires
        0 <= width,
        0 <= height,
        pixels@.len() == width * height * 4,
    ensures
        final(dev)@ == old(dev)@.call_with(
            GlCall::TexSubImage2D { target, level, x_offset, y_offset, width, height, format, ty },
            BlobView::Bytes(pixels@),
        ),
{
    dev.record_with(
        GlCall::TexSubImage2D { target, level, x_offset, y_offset, width, height, format, ty },
        Blob::Bytes(slice_to_vec(pixels)),
    );
}

/// Asks where the uniform `name` of `program` lives.
#[allow(non_snake_case)]
pub fn GetUniformLocation(dev: &mut Device, program: GLuint, name: &str)
    ensures
        final(dev)@ == old(dev)@.call_with(
            GlCall::GetUniformLocation { program },
            BlobView::Text(name@),
        ),
{
    dev.record_with(GlCall::GetUniformLocation { program }, Blob::Text(name.to_owned()));
}

/// Asks where the attribute `name` of `program` lives.
#[allow(non_snake_case)]
pub fn GetAttribLocation(dev: &mut Device, program: GLuint, name: &str)
    ensures
        final(dev)@ == old(dev)@.call_with(
            GlCall::GetAttribLocation { program },
            BlobView::Text(name@),
        ),
{
    dev.record_with(GlCall::GetAttribLocation { program }, Blob::Text(name.to_owned()));
}

/// Binds the fragment output `name` of `program` to color number `color`.
#[allow(non_snake_case)]
pub fn BindFragDataLocation(dev: &mut Device, program: GLuint, color: GLuint, name: &str)
    ensures
        final(dev)@ == old(dev)@.call_with(
            GlCall::BindFragDataLocation { program, color },
            BlobView::Text(name@),
        ),
{
    dev.record_with(GlCall::BindFragDataLocation { program, color }, Blob::Text(name.to_owned()));
}

/// Sets `count` 2x2 matrix uniforms of `program`.
#[allow(non_snake_case)]
pub fn ProgramUniformMatrix2fv(
    dev: &mut Device,
    program: GLuint,
    location: GLint,
    count: GLint,
    transpose: GLboolean,
    value: &[u32],
)
    requires
        0 <= count,
        value@.len() == count * 4,
    ensures
        final(dev)@ == old(dev)@.call_with(
            GlCall::ProgramUniformMatrix2fv { program, location, count, transpose },
            BlobView::Words(value@),
        ),
{
    dev.record_with(
        GlCall::ProgramUniformMatrix2fv { program, location, count, transpose },
        Blob::Words(slice_to_vec(value)),
    );
}

/// Sets `count` 3x3 matrix uniforms of `program`.
#[allow(non_snake_case)]
pub fn ProgramUniformMatrix3fv(
    dev: &mut Device,
    program: GLuint,
    location: GLint,
    count: GLint,
    transpose: GLboolean,
    value: &[u32],
)
    requires
        0 <= count,
        value@.len() == count * 9,
    ensures
        final(dev)@ == old(dev)@.call_with(
            GlCall::ProgramUniformMatrix3fv { program, location, count, transpose },
            BlobView::Words(value@),
        ),
{
    dev.record_with(
        GlCall::ProgramUniformMatrix3fv { program, location, count, transpose },
        Blob::Words(slice_to_vec(value)),
    );
}

/// Sets `count` 4x4 matrix uniforms of `program`.
#[allow(non_snake_case)]
pub fn ProgramUniformMatrix4fv(
    dev: &mut Device,
    program: GLuint,
    location: GLint,
    count: GLint,
    transpose: GLboolean,
    value: &[u32],
)
    requires
        0 <= count,
        value@.len() == count * 16,
    ensures
        final(dev)@ == old(dev)@.call_with(
            GlCall::ProgramUniformMatrix4fv { program, location, count, transpose },
            BlobView::Words(value@),
        ),
{
    dev.record_with(
        GlCall::ProgramUniformMatrix4fv { program, location, count, transpose },
        Blob::Words(slice_to_vec(value)),
    );
}

/// Replaces the contents of the buffer bound to `target` by `data`.
#[allow(non_snake_case)]
pub fn BufferData(dev: &mut Device, target: GLenum, data: Blob, usage: GLenum)
    ensures
        final(dev)@ == old(dev)@.call_with(GlCall::BufferData { target, usage }, data@),
{
    dev.record_with(GlCall::BufferData { target, usage }, data);
}

/// Reserves the name of a new shader of the given type. Returns the name, or
/// zero when none is left.
#[allow(non_snake_case)]
pub fn CreateShader(dev: &mut Device, shader_type: GLenum) -> (shader: GLuint)
    ensures
        shader == old(dev)@.fresh(),
        final(dev)@ == old(dev)@.named(GlCall::CreateShader { shader, shader_type }),
{
    let shader: GLuint = dev.reserve();
    if shader != 0 {
        dev.record(GlCall::CreateShader { shader, shader_type });
    }
    shader
}

/// Gives `shader` its source text.
#[allow(non_snake_case)]
pub fn ShaderSource(dev: &mut Device, shader: GLuint, source: &str)
    ensures
        final(dev)@ == old(dev)@.call_with(GlCall::ShaderSource(shader), BlobView::Text(source@)),
{
    dev.record_with(GlCall::ShaderSource(shader), Blob::Text(source.to_owned()));
}

/// Makes `texture` the current texture of `target`.
#[allow(non_snake_case)]
pub fn BindTexture(dev: &mut Device, target: GLenum, texture: GLuint)
    ensures
        final(dev)@ == old(dev)@.call(GlCall::BindTexture { target, texture }),
{
    dev.record(GlCall::BindTexture { target, texture });
}

/// Sets an integer parameter of the texture bound to `target`.
#[allow(non_snake_case)]
pub fn TexParameteri(dev: &mut Device, target: GLenum, parameter: GLenum, value: GLint)
    ensures
        final(dev)@ == old(dev)@.call(GlCall::TexParameteri { target, parameter, value }),
{
    dev.record(GlCall::TexParameteri { target, parameter, value });
}

/// Builds the mipmap chain of the texture bound to `target`.
#[allow(non_snake_case)]
pub fn GenerateMipmap(dev: &mut Device, target: GLenum)
    ensures
        final(dev)@ == old(dev)@.call(GlCall::GenerateMipmap(target)),
{
    dev.record(GlCall::GenerateMipmap(target));
}

/// Links `program`.
#[allow(non_snake_case)]
pub fn LinkProgram(dev: &mut Device, program: GLuint)
    ensures
        final(dev)@ == old(dev)@.call(GlCall::LinkProgram(program)),
{
    dev.record(GlCall::LinkProgram(program));
}

/// Makes `program` the current program.
#[allow(non_snake_case)]
pub fn UseProgram(dev: &mut Device, program: GLuint)
    ensures
        final(dev)@ == old(dev)@.call(GlCall::UseProgram(program)),
{
    dev.record(GlCall::UseProgram(program));
}

/// Deletes `program`.
#[allow(non_snake_case)]
pub fn DeleteProgram(dev: &mut Device, program: GLuint)
    ensures
        final(dev)@ == old(dev)@.call(GlCall::DeleteProgram(program)),
{
    dev.record(GlCall::DeleteProgram(program));
}

/// Asks whether `program` linked. The device answers with a status.
#[allow(non_snake_case)]
pub fn GetLinkStatus(dev: &mut Device, program: GLuint)
    ensures
        final(dev)@ == old(dev)@.call(GlCall::GetLinkStatus(program)),
{
    dev.record(GlCall::GetLinkStatus(program));
}

/// Asks for the link log of `program`. The device answers with a log.
#[allow(non_snake_case)]
pub fn GetProgramInfoLog(dev: &mut Device, program: GLuint)
    ensures
        final(dev)@ == old(dev)@.call(GlCall::GetProgramInfoLog(program)),
{
    dev.record(GlCall::GetProgramInfoLog(program));
}

/// Sets a scalar uniform of `program`.
#[allow(non_snake_case)]
pub fn ProgramUniform1f(dev: &mut Device, program: GLuint, location: GLint, value: u32)
    ensures
        final(dev)@ == old(dev)@.call(GlCall::ProgramUniform1f { program, location, value }),
{
    dev.record(GlCall::ProgramUniform1f { program, location, value });
}

/// Sets an integer uniform of `program`.
#[allow(non_snake_case)]
pub fn ProgramUniform1i(dev: &mut Device, program: GLuint, location: GLint, value: GLint)
    ensures
        final(dev)@ == old(dev)@.call(GlCall::ProgramUniform1i { program, location, value }),
{
    dev.record(GlCall::ProgramUniform1i { program, location, value });
}

/// Sets a two-component uniform of `program`.
#[allow(non_snake_case)]
pub fn ProgramUniform2f(dev: &mut Device, program: GLuint, location: GLint, x: u32, y: u32)
    ensures
        final(dev)@ == old(dev)@.call(GlCall::ProgramUniform2f { program, location, x, y }),
{
    dev.record(GlCall::ProgramUniform2f { program, location, x, y });
}

/// Sets a three-component uniform of `program`.
#[allow(non_snake_case)]
pub fn ProgramUniform3f(dev: &mut Device, program: GLuint, location: GLint, x: u32, y: u32, z: u32)
    ensures
        final(dev)@ == old(dev)@.call(GlCall::ProgramUniform3f { program, location, x, y, z }),
{
    dev.record(GlCall::ProgramUniform3f { program, location, x, y, z });
}

/// Sets a four-component uniform of `program`.
#[allow(non_snake_case)]
pub fn ProgramUniform4f(dev: &mut Device, program: GLuint, location: GLint, x: u32, y: u32, z: u32, w: u32)
    ensures
        final(dev)@ == old(dev)@.call(GlCall::ProgramUniform4f { program, location, x, y, z, w }),
{
    dev.record(GlCall::ProgramUniform4f { program, location, x, y, z, w });
}

/// Sets a four-component uniform of the current program.
#[allow(non_snake_case)]
pub fn Uniform4f(dev: &mut Device, location: GLint, x: u32, y: u32, z: u32, w: u32)
    ensures
        final(dev)@ == old(dev)@.call(GlCall::Uniform4f { location, x, y, z, w }),
{
    dev.record(GlCall::Uniform4f { location, x, y, z, w });
}

/// Deletes `buffer`.
#[allow(non_snake_case)]
pub fn DeleteBuffers(dev: &mut Device, buffer: GLuint)
    ensures
        final(dev)@ == old(dev)@.call(GlCall::DeleteBuffer(buffer)),
{
    dev.record(GlCall::DeleteBuffer(buffer));
}

/// Makes `array` the current vertex array; zero unbinds.
#[allow(non_snake_case)]
pub fn BindVertexArray(dev: &mut Device, array: GLuint)
    ensures
        final(dev)@ == old(dev)@.call(GlCall::BindVertexArray(array)),
{
    dev.record(GlCall::BindVertexArray(array));
}

/// Deletes `array`.
#[allow(non_snake_case)]
pub fn DeleteVertexArrays(dev: &mut Device, array: GLuint)
    ensures
        final(dev)@ == old(dev)@.call(GlCall::DeleteVertexArray(array)),
{
    dev.record(GlCall::DeleteVertexArray(array));
}

/// Makes `buffer` the current buffer of `target`.
#[allow(non_snake_case)]
pub fn BindBuffer(dev: &mut Device, target: GLenum, buffer: GLuint)
    ensures
        final(dev)@ == old(dev)@.call(GlCall::BindBuffer { target, buffer }),
{
    dev.record(GlCall::BindBuffer { target, buffer });
}

/// Describes the layout of attribute `index` in the buffer bound to the array target.
#[allow(non_snake_case)]
pub fn VertexAttribPointer(dev: &mut Device, index: GLuint, size: GLint, data_type: GLenum, normalized: GLboolean, stride: GLsizei, offset: GLint)
    ensures
        final(dev)@ == old(dev)@.call(GlCall::VertexAttribPointer { index, size, data_type, normalized, stride, offset }),
{
    dev.record(GlCall::VertexAttribPointer { index, size, data_type, normalized, stride, offset });
}

/// Enables attribute `location` of the current vertex array.
#[allow(non_snake_case)]
pub fn EnableVertexAttribArray(dev: &mut Device, location: GLuint)
    ensures
        final(dev)@ == old(dev)@.call(GlCall::EnableVertexAttribArray(location)),
{
    dev.record(GlCall::EnableVertexAttribArray(location));
}

/// Compiles `shader`.
#[allow(non_snake_case)]
pub fn CompileShader(dev: &mut Device, shader: GLuint)
    ensures
        final(dev)@ == old(dev)@.call(GlCall::CompileShader(shader)),
{
    dev.record(GlCall::CompileShader(shader));
}

/// Asks whether `shader` compiled. The device answers with a status.
#[allow(non_snake_case)]
pub fn GetCompleStatus(dev: &mut Device, shader: GLuint)
    ensures
        final(dev)@ == old(dev)@.call(GlCall::GetCompileStatus(shader)),
{
    dev.record(GlCall::GetCompileStatus(shader));
}

/// Asks for the compile log of `shader`. The device answers with a log.
#[allow(non_snake_case)]
pub fn GetShaderInfoLog(dev: &mut Device, shader: GLuint)
    ensures
        final(dev)@ == old(dev)@.call(GlCall::GetShaderInfoLog(shader)),
{
    dev.record(GlCall::GetShaderInfoLog(shader));
}

/// Attaches `shader` to `program`.
#[allow(non_snake_case)]
pub fn AttachShader(dev: &mut Device, program: GLuint, shader: GLuint)
    ensures
        final(dev)@ == old(dev)@.call(GlCall::AttachShader { program, shader }),
{
    dev.record(GlCall::AttachShader { program, shader });
}

/// Deletes `shader`.
#[allow(non_snake_case)]
pub fn DeleteShader(dev: &mut Device, shader: GLuint)
    ensures
        final(dev)@ == old(dev)@.call(GlCall::DeleteShader(shader)),
{
    dev.record(GlCall::DeleteShader(shader));
}

/// Switches a capability on.
#[allow(non_snake_case)]
pub fn Enable(dev: &mut Device, parameter: GLenum)
    ensures
        final(dev)@ == old(dev)@.call(GlCall::Enable(parameter)),
{
    dev.record(GlCall::Enable(parameter));
}

/// Switches a capability off.
#[allow(non_snake_case)]
pub fn Disable(dev: &mut Device, parameter: GLenum)
    ensures
        final(dev)@ == old(dev)@.call(GlCall::Disable(parameter)),
{
    dev.record(GlCall::Disable(parameter));
}

/// Draws `count` vertices of the enabled arrays, starting at `first`.
#[allow(non_snake_case)]
pub fn DrawArrays(dev: &mut Device, mode: GLenum, first: GLint, count: GLsizei)
    ensures
        final(dev)@ == old(dev)@.call(GlCall::DrawArrays { mode, first, count }),
{
    dev.record(GlCall::DrawArrays { mode, first, count });
}

/// Sets the viewport; `(x, y)` is its lower left corner.
#[allow(non_snake_case)]
pub fn Viewport(dev: &mut Device, x: GLint, y: GLint, width: GLsizei, height: GLsizei)
    ensures
        final(dev)@ == old(dev)@.call(GlCall::Viewport { x, y, width, height }),
{
    dev.record(GlCall::Viewport { x, y, width, height });
}

/// Sets the color that `Clear` fills the color buffer with.
#[allow(non_snake_case)]
pub fn ClearColor(dev: &mut Device, red: u32, green: u32, blue: u32, alpha: u32)
    ensures
        final(dev)@ == old(dev)@.call(GlCall::ClearColor { red, green, blue, alpha }),
{
    dev.record(GlCall::ClearColor { red, green, blue, alpha });
}

/// Clears the buffers that `mask` selects.
#[allow(non_snake_case)]
pub fn Clear(dev: &mut Device, mask: GLbitfield)
    ensures
        final(dev)@ == old(dev)@.call(GlCall::Clear(mask)),
{
    dev.record(GlCall::Clear(mask));
}

/// Sets the value that `Clear` fills the stencil buffer with.
#[allow(non_snake_case)]
pub fn ClearStencil(dev: &mut Device, stencil: GLint)
    ensures
        final(dev)@ == old(dev)@.call(GlCall::ClearStencil(stencil)),
{
    dev.record(GlCall::ClearStencil(stencil));
}

/// Sets the scissor box; `(x, y)` is its lower left corner.
#[allow(non_snake_case)]
pub fn Scissor(dev: &mut Device, x: GLint, y: GLint, width: GLsizei, height: GLsizei)
    ensures
        final(dev)@ == old(dev)@.call(GlCall::Scissor { x, y, width, height }),
{
    dev.record(GlCall::Scissor { x, y, width, height });
}

/// Sets the stencil comparison, its reference value and its mask.
#[allow(non_snake_case)]
pub fn StencilFunc(dev: &mut Device, func: GLenum, reference: GLint, mask: GLuint)
    ensures
        final(dev)@ == old(dev)@.call(GlCall::StencilFunc { func, reference, mask }),
{
    dev.record(GlCall::StencilFunc { func, reference, mask });
}

/// Selects the stencil bits that may be written.
#[allow(non_snake_case)]
pub fn StencilMask(dev: &mut Device, mask: GLuint)
    ensures
        final(dev)@ == old(dev)@.call(GlCall::StencilMask(mask)),
{
    dev.record(GlCall::StencilMask(mask));
}

/// Sets what happens to the stencil value when the stencil test fails, the depth test fails, and both pass.
#[allow(non_snake_case)]
pub fn StencilOp(dev: &mut Device, fail: GLenum, zfail: GLenum, zpass: GLenum)
    ensures
        final(dev)@ == old(dev)@.call(GlCall::StencilOp { fail, zfail, zpass }),
{
    dev.record(GlCall::StencilOp { fail, zfail, zpass });
}

/// Sets the constant blend color.
#[allow(non_snake_case)]
pub fn BlendColor(dev: &mut Device, red: u32, green: u32, blue: u32, alpha: u32)
    ensures
        final(dev)@ == old(dev)@.call(GlCall::BlendColor { red, green, blue, alpha }),
{
    dev.record(GlCall::BlendColor { red, green, blue, alpha });
}

/// Sets the blend equations of the color and of the alpha channel.
#[allow(non_snake_case)]
pub fn BlendEquationSeparate(dev: &mut Device, mode_rgb: GLenum, mode_alpha: GLenum)
    ensures
        final(dev)@ == old(dev)@.call(GlCall::BlendEquationSeparate { mode_rgb, mode_alpha }),
{
    dev.record(GlCall::BlendEquationSeparate { mode_rgb, mode_alpha });
}

/// Sets the blend factors of the color and of the alpha channel.
#[allow(non_snake_case)]
pub fn BlendFuncSeparate(dev: &mut Device, sfactor_rgb: GLenum, dfactor_rgb: GLenum, sfactor_alpha: GLenum, dfactor_alpha: GLenum)
    ensures
        final(dev)@ == old(dev)@.call(GlCall::BlendFuncSeparate { sfactor_rgb, dfactor_rgb, sfactor_alpha, dfactor_alpha }),
{
    dev.record(GlCall::BlendFuncSeparate { sfactor_rgb, dfactor_rgb, sfactor_alpha, dfactor_alpha });
}

/// Reserves a texture name. Returns the name, or zero when none is left.
#[allow(non_snake_case)]
pub fn GenTextures(dev: &mut Device) -> (name: GLuint)
    ensures
        name == old(dev)@.fresh(),
        final(dev)@ == old(dev)@.named(GlCall::GenTexture(name)),
{
    let name: GLuint = dev.reserve();
    if name != 0 {
        dev.record(GlCall::GenTexture(name));
    }
    name
}

/// Reserves the name of a new, empty program. Returns the name, or zero when none is left.
#[allow(non_snake_case)]
pub fn CreateProgram(dev: &mut Device) -> (name: GLuint)
    ensures
        name == old(dev)@.fresh(),
        final(dev)@ == old(dev)@.named(GlCall::CreateProgram(name)),
{
    let name: GLuint = dev.reserve();
    if name != 0 {
        dev.record(GlCall::CreateProgram(name));
    }
    name
}

/// Reserves a vertex array name. Returns the name, or zero when none is left.
#[allow(non_snake_case)]
pub fn GenVertexArrays(dev: &mut Device) -> (name: GLuint)
    ensures
        name == old(dev)@.fresh(),
        final(dev)@ == old(dev)@.named(GlCall::GenVertexArray(name)),
{
    let name: GLuint = dev.reserve();
    if name != 0 {
        dev.record(GlCall::GenVertexArray(name));
    }
    name
}

/// Reserves a buffer name. Returns the name, or zero when none is left.
#[allow(non_snake_case)]
pub fn GenBuffers(dev: &mut Device) -> (name: GLuint)
    ensures
        name == old(dev)@.fresh(),
        final(dev)@ == old(dev)@.named(GlCall::GenBuffer(name)),
{
    let name: GLuint = dev.reserve();
    if name != 0 {
        dev.record(GlCall::GenBuffer(name));
    }
    name
}

} // verus!
