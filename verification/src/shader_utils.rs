//! Helper functions for dealing with shaders.
//!
//! Whatever the device has to be asked (did this compile, where does this
//! attribute live) takes two steps here: one function records the question,
//! and another takes the answer and decides.

use vstd::prelude::*;
use vstd::string::StringSliceAdditionalSpecFns;
use crate::error::{ConstructionError, TextKind};
use crate::gl;
use crate::gl::{Blob, BlobView, Device, DeviceView, GLboolean, GLenum, GLint, GLuint, GlCall};

verus! {

/// Whether `p` is the position of the first zero byte of `bytes`.
pub open spec fn first_nul(bytes: Seq<u8>, p: int) -> bool {
    &&& 0 <= p < bytes.len()
    &&& bytes[p] == 0
    &&& forall|j: int| 0 <= j < p ==> bytes[j] != 0
}

/// Whether `bytes` holds no zero byte.
pub open spec fn nul_free(bytes: Seq<u8>) -> bool {
    forall|j: int| 0 <= j < bytes.len() ==> bytes[j] != 0
}

/// The position of the first zero byte of `bytes`, where there is one.
pub open spec fn nul_at(bytes: Seq<u8>) -> int {
    choose|p: int| first_nul(bytes, p)
}

/// There is one first zero byte at most.
pub proof fn first_nul_is_unique(bytes: Seq<u8>, p: int)
    requires
        first_nul(bytes, p),
    ensures
        nul_at(bytes) == p,
        !nul_free(bytes),
{
    let q = nul_at(bytes);
    assert(first_nul(bytes, q));
    if q < p {
        assert(bytes[q] != 0);
    }
    if p < q {
        assert(bytes[p] != 0);
    }
}

/// The position of the first zero byte of `text`, if it has one. A text
/// with a zero byte cannot be handed to the device.
pub fn nul_position(text: &str) -> (r: Option<usize>)
    ensures
        match r {
            Some(p) => first_nul(text.spec_bytes(), p as int),
            None => nul_free(text.spec_bytes()),
        },
{
    let bytes = text.as_bytes();
    let mut i: usize = 0;
    while i < bytes.len()
        invariant
            bytes@ == text.spec_bytes(),
            i <= bytes@.len(),
            forall|j: int| 0 <= j < i ==> bytes@[j] != 0,
        decreases bytes@.len() - i,
    {
        if bytes[i] == 0 {
            return Some(i);
        }
        i = i + 1;
    }
    None
}

/// A shader attribute together with the vertex buffer that feeds it.
pub struct DynamicAttribute {
    /// The vertex buffer object.
    vbo: GLuint,
    /// The number of components.
    size: i32,
    /// The location of the attribute in the shader.
    location: GLuint,
    /// Whether to normalize when sending to the device.
    normalize: GLboolean,
    /// The type of a component.
    ty: GLenum,
}

/// What a [`DynamicAttribute`] holds.
pub struct AttributeView {
    pub vbo: GLuint,
    pub size: i32,
    pub location: GLuint,
    pub normalize: GLboolean,
    pub ty: GLenum,
}

impl View for DynamicAttribute {
    type V = AttributeView;

    closed spec fn view(&self) -> AttributeView {
        AttributeView {
            vbo: self.vbo,
            size: self.size,
            location: self.location,
            normalize: self.normalize,
            ty: self.ty,
        }
    }
}

impl AttributeView {
    /// The device after the attribute's buffer has been given the contents
    /// `data`: the attribute is enabled, its buffer bound, and the whole
    /// buffer specified anew, for frequent updates.
    pub open spec fn upload(self, d: DeviceView, data: BlobView) -> DeviceView {
        d.followed_by(
            seq![
                GlCall::EnableVertexAttribArray(self.location),
                GlCall::BindBuffer { target: gl::ARRAY_BUFFER, buffer: self.vbo },
            ],
        ).call_with(GlCall::BufferData { target: gl::ARRAY_BUFFER, usage: gl::DYNAMIC_DRAW }, data)
    }

    /// The commands that tie the attribute's buffer and format to the
    /// vertex array `vao`.
    pub open spec fn bind_calls(self, vao: GLuint) -> Seq<GlCall> {
        seq![
            GlCall::BindVertexArray(vao),
            GlCall::BindBuffer { target: gl::ARRAY_BUFFER, buffer: self.vbo },
            GlCall::VertexAttribPointer {
                index: self.location,
                size: self.size,
                data_type: self.ty,
                normalized: self.normalize,
                stride: 0,
                offset: 0,
            },
        ]
    }
}

/// An attribute whose location the device has been asked for.
pub struct AttributeQuery {
    name: String,
    size: i32,
    normalize: GLboolean,
    ty: GLenum,
    vao: GLuint,
}

/// What an [`AttributeQuery`] holds.
pub struct AttributeQueryView {
    pub name: Seq<char>,
    pub size: i32,
    pub normalize: GLboolean,
    pub ty: GLenum,
    pub vao: GLuint,
}

impl View for AttributeQuery {
    type V = AttributeQueryView;

    closed spec fn view(&self) -> AttributeQueryView {
        AttributeQueryView {
            name: self.name@,
            size: self.size,
            normalize: self.normalize,
            ty: self.ty,
            vao: self.vao,
        }
    }
}

impl AttributeQueryView {
    /// The attribute that the answer `id` makes of the query on the device `d`.
    pub open spec fn attribute(self, d: DeviceView, id: GLint) -> AttributeView {
        AttributeView {
            vbo: d.fresh(),
            size: self.size,
            location: id as GLuint,
            normalize: self.normalize,
            ty: self.ty,
        }
    }
}

impl AttributeQuery {
    /// Takes the device's answer. A negative location means that the program
    /// has no such attribute. Otherwise one buffer is reserved and tied,
    /// with the attribute's format, to the vertex array; where no name is
    /// left for the buffer, there is no attribute.
    pub fn resolve(self, dev: &mut Device, id: GLint) -> (r: Result<
        DynamicAttribute,
        ConstructionError,
    >)
        ensures
            id < 0 ==> final(dev)@ == old(dev)@ && (r matches Err(
                ConstructionError::AttributeNotFound { name },
            ) && name@ == self@.name),
            id >= 0 && old(dev)@.exhausted() ==> final(dev)@ == old(dev)@ && r matches Err(
                ConstructionError::OutOfNames,
            ),
            id >= 0 && !old(dev)@.exhausted() ==> (r matches Ok(a) && a@ == self@.attribute(
                old(dev)@,
                id,
            )) && final(dev)@ == old(dev)@.named(
                GlCall::GenBuffer(old(dev)@.fresh()),
            ).followed_by(self@.attribute(old(dev)@, id).bind_calls(self@.vao)),
    {
        if id < 0 {
            return Err(ConstructionError::AttributeNotFound { name: self.name });
        }
        let vbo: GLuint = gl::GenBuffers(dev);
        if vbo == 0 {
            return Err(ConstructionError::OutOfNames);
        }
        let res = DynamicAttribute {
            vbo,
            size: self.size,
            location: id as GLuint,
            normalize: self.normalize,
            ty: self.ty,
        };
        res.bind_vao(dev, self.vao);
        Ok(res)
    }
}

impl DynamicAttribute {
    /// Binds to a vertex array object.
    ///
    /// The vertex array object remembers the format for later.
    fn bind_vao(&self, dev: &mut Device, vao: GLuint)
        ensures
            final(dev)@ == old(dev)@.followed_by(self@.bind_calls(vao)),
    {
        gl::BindVertexArray(dev, vao);
        gl::BindBuffer(dev, gl::ARRAY_BUFFER, self.vbo);
        gl::VertexAttribPointer(dev, self.location, self.size, self.ty, self.normalize, 0, 0);
        assert(dev@.calls =~= old(dev)@.calls + self@.bind_calls(vao));
    }

    fn new(
        dev: &mut Device,
        program: GLuint,
        name: &str,
        size: i32,
        normalize: GLboolean,
        ty: GLenum,
        vao: GLuint,
    ) -> (r: Result<AttributeQuery, ConstructionError>)
        ensures
            asks_location(
                old(dev)@,
                final(dev)@,
                GlCall::GetAttribLocation { program },
                TextKind::AttributeName,
                name,
                r is Ok,
                r->Err_0,
            ),
            r matches Ok(q) ==> q@ == (AttributeQueryView { name: name@, size, normalize, ty, vao }),
    {
        match attribute_location(dev, program, name) {
            Ok(()) => Ok(AttributeQuery { name: name.to_owned(), size, normalize, ty, vao }),
            Err(e) => Err(e),
        }
    }

    /// Create XYZ vertex attribute.
    pub fn xyz(dev: &mut Device, program: GLuint, name: &str, vao: GLuint) -> (r: Result<
        AttributeQuery,
        ConstructionError,
    >)
        ensures
            asks_location(
                old(dev)@,
                final(dev)@,
                GlCall::GetAttribLocation { program },
                TextKind::AttributeName,
                name,
                r is Ok,
                r->Err_0,
            ),
            r matches Ok(q) ==> q@ == (AttributeQueryView {
                name: name@,
                size: 3,
                normalize: gl::FALSE,
                ty: gl::FLOAT,
                vao,
            }),
    {
        DynamicAttribute::new(dev, program, name, 3, gl::FALSE, gl::FLOAT, vao)
    }

    /// Create XY vertex attribute.
    pub fn xy(dev: &mut Device, program: GLuint, name: &str, vao: GLuint) -> (r: Result<
        AttributeQuery,
        ConstructionError,
    >)
        ensures
            asks_location(
                old(dev)@,
                final(dev)@,
                GlCall::GetAttribLocation { program },
                TextKind::AttributeName,
                name,
                r is Ok,
                r->Err_0,
            ),
            r matches Ok(q) ==> q@ == (AttributeQueryView {
                name: name@,
                size: 2,
                normalize: gl::FALSE,
                ty: gl::FLOAT,
                vao,
            }),
    {
        DynamicAttribute::new(dev, program, name, 2, gl::FALSE, gl::FLOAT, vao)
    }

    /// Create RGB color attribute.
    pub fn rgb(dev: &mut Device, program: GLuint, name: &str, vao: GLuint) -> (r: Result<
        AttributeQuery,
        ConstructionError,
    >)
        ensures
            asks_location(
                old(dev)@,
                final(dev)@,
                GlCall::GetAttribLocation { program },
                TextKind::AttributeName,
                name,
                r is Ok,
                r->Err_0,
            ),
            r matches Ok(q) ==> q@ == (AttributeQueryView {
                name: name@,
                size: 3,
                normalize: gl::FALSE,
                ty: gl::FLOAT,
                vao,
            }),
    {
        DynamicAttribute::new(dev, program, name, 3, gl::FALSE, gl::FLOAT, vao)
    }

    /// Create RGBA color attribute.
    pub fn rgba(dev: &mut Device, program: GLuint, name: &str, vao: GLuint) -> (r: Result<
        AttributeQuery,
        ConstructionError,
    >)
        ensures
            asks_location(
                old(dev)@,
                final(dev)@,
                GlCall::GetAttribLocation { program },
                TextKind::AttributeName,
                name,
                r is Ok,
                r->Err_0,
            ),
            r matches Ok(q) ==> q@ == (AttributeQueryView {
                name: name@,
                size: 4,
                normalize: gl::FALSE,
                ty: gl::FLOAT,
                vao,
            }),
    {
        DynamicAttribute::new(dev, program, name, 4, gl::FALSE, gl::FLOAT, vao)
    }

    /// Create texture coordinate attribute.
    pub fn uv(dev: &mut Device, program: GLuint, name: &str, vao: GLuint) -> (r: Result<
        AttributeQuery,
        ConstructionError,
    >)
        ensures
            asks_location(
                old(dev)@,
                final(dev)@,
                GlCall::GetAttribLocation { program },
                TextKind::AttributeName,
                name,
                r is Ok,
                r->Err_0,
            ),
            r matches Ok(q) ==> q@ == (AttributeQueryView {
                name: name@,
                size: 2,
                normalize: gl::FALSE,
                ty: gl::FLOAT,
                vao,
            }),
    {
        DynamicAttribute::new(dev, program, name, 2, gl::FALSE, gl::FLOAT, vao)
    }

    /// Sets attribute data.
    pub fn set(&self, dev: &mut Device, data: Blob)
        ensures
            final(dev)@ == self@.upload(old(dev)@, data@),
    {
        gl::EnableVertexAttribArray(dev, self.location);
        gl::BindBuffer(dev, gl::ARRAY_BUFFER, self.vbo);
        gl::BufferData(dev, gl::ARRAY_BUFFER, data, gl::DYNAMIC_DRAW);
        assert(dev@.calls =~= self@.upload(old(dev)@, data@).calls);
    }

    /// Releases the attribute's buffer.
    pub fn delete(self, dev: &mut Device)
        ensures
            final(dev)@ == old(dev)@.call(GlCall::DeleteBuffer(self@.vbo)),
    {
        gl::DeleteBuffers(dev, self.vbo);
    }
}

/// What asking the device for the location of the variable `name` comes to:
/// a name with a zero byte is refused and nothing is asked; any other name
/// is asked for, by the question `ask`.
pub open spec fn asks_location(
    before: DeviceView,
    after: DeviceView,
    ask: GlCall,
    kind: TextKind,
    name: &str,
    asked: bool,
    error: ConstructionError,
) -> bool {
    if nul_free(name.spec_bytes()) {
        asked && after == before.call_with(ask, BlobView::Text(name@))
    } else {
        &&& !asked
        &&& after == before
        &&& error matches ConstructionError::InteriorNul { text, position }
        &&& text == kind
        &&& first_nul(name.spec_bytes(), position as int)
    }
}

/// Asks the device where the attribute `name` of `program` lives. The
/// answer goes to [`attribute_at`].
pub fn attribute_location(dev: &mut Device, program: GLuint, name: &str) -> (r: Result<
    (),
    ConstructionError,
>)
    ensures
        asks_location(
            old(dev)@,
            final(dev)@,
            GlCall::GetAttribLocation { program },
            TextKind::AttributeName,
            name,
            r is Ok,
            r->Err_0,
        ),
{
    match nul_position(name) {
        Some(position) => Err(
            ConstructionError::InteriorNul { text: TextKind::AttributeName, position },
        ),
        None => {
            gl::GetAttribLocation(dev, program, name);
            Ok(())
        },
    }
}

/// Finds attribute location from the device's answer.
///
/// Returns `Err` if there is no attribute with such name.
pub fn attribute_at(name: &str, id: GLint) -> (r: Result<GLuint, ConstructionError>)
    ensures
        id >= 0 ==> r == Ok::<GLuint, ConstructionError>(id as GLuint),
        id < 0 ==> (r matches Err(ConstructionError::AttributeNotFound { name: n }) && n@
            == name@),
{
    if id < 0 {
        Err(ConstructionError::AttributeNotFound { name: name.to_owned() })
    } else {
        Ok(id as GLuint)
    }
}

/// Asks the device where the uniform `name` of `program` lives. The answer
/// goes to [`uniform_at`].
pub fn uniform_location(dev: &mut Device, program: GLuint, name: &str) -> (r: Result<
    (),
    ConstructionError,
>)
    ensures
        asks_location(
            old(dev)@,
            final(dev)@,
            GlCall::GetUniformLocation { program },
            TextKind::UniformName,
            name,
            r is Ok,
            r->Err_0,
        ),
{
    match nul_position(name) {
        Some(position) => Err(
            ConstructionError::InteriorNul { text: TextKind::UniformName, position },
        ),
        None => {
            gl::GetUniformLocation(dev, program, name);
            Ok(())
        },
    }
}

/// Finds uniform location from the device's answer.
///
/// Returns `Err` if there is no uniform with such name.
pub fn uniform_at(name: &str, id: GLint) -> (r: Result<GLuint, ConstructionError>)
    ensures
        id >= 0 ==> r == Ok::<GLuint, ConstructionError>(id as GLuint),
        id < 0 ==> (r matches Err(ConstructionError::UniformNotFound { name: n }) && n@ == name@),
{
    if id < 0 {
        Err(ConstructionError::UniformNotFound { name: name.to_owned() })
    } else {
        Ok(id as GLuint)
    }
}

/// The device after a shader of type `shader_type` has been created from
/// `source` and its compilation asked about.
pub open spec fn compile_asked(d: DeviceView, shader_type: GLenum, source: Seq<char>) -> DeviceView {
    d.named(GlCall::CreateShader { shader: d.fresh(), shader_type }).call_with(
        GlCall::ShaderSource(d.fresh()),
        BlobView::Text(source),
    ).followed_by(seq![GlCall::CompileShader(d.fresh()), GlCall::GetCompileStatus(d.fresh())])
}

/// Compiles a shader.
///
/// Creates the shader, hands over its source, has it compiled and asks
/// whether that worked; the answer goes to [`compile_status`]. Returns the
/// shader. Where no name is left, there is no shader. A source with a zero
/// byte is refused once the shader exists.
pub fn compile_shader(dev: &mut Device, shader_type: GLenum, source: &str) -> (r: Result<
    GLuint,
    ConstructionError,
>)
    ensures
        old(dev)@.exhausted() ==> final(dev)@ == old(dev)@ && r matches Err(
            ConstructionError::OutOfNames,
        ),
        !old(dev)@.exhausted() && nul_free(source.spec_bytes()) ==> r == Ok::<
            GLuint,
            ConstructionError,
        >(old(dev)@.fresh()) && final(dev)@ == compile_asked(old(dev)@, shader_type, source@),
        !old(dev)@.exhausted() && !nul_free(source.spec_bytes()) ==> final(dev)@ == old(
            dev,
        )@.named(GlCall::CreateShader { shader: old(dev)@.fresh(), shader_type }) && (r matches Err(
            ConstructionError::InteriorNul { text, position },
        ) && text == TextKind::ShaderSource && first_nul(source.spec_bytes(), position as int)),
{
    let shader: GLuint = gl::CreateShader(dev, shader_type);
    if shader == 0 {
        return Err(ConstructionError::OutOfNames);
    }
    match nul_position(source) {
        Some(position) => Err(
            ConstructionError::InteriorNul { text: TextKind::ShaderSource, position },
        ),
        None => {
            gl::ShaderSource(dev, shader, source);
            gl::CompileShader(dev, shader);
            gl::GetCompleStatus(dev, shader);
            assert(dev@.calls =~= compile_asked(old(dev)@, shader_type, source@).calls);
            Ok(shader)
        },
    }
}

/// Takes the device's answer on the compilation of `shader`. Where it
/// failed, the device is asked for the log. Returns whether the shader is
/// ready.
pub fn compile_status(dev: &mut Device, shader: GLuint, compiled: bool) -> (ready: bool)
    ensures
        ready == compiled,
        compiled ==> final(dev)@ == old(dev)@,
        !compiled ==> final(dev)@ == old(dev)@.call(GlCall::GetShaderInfoLog(shader)),
{
    if !compiled {
        gl::GetShaderInfoLog(dev, shader);
    }
    compiled
}

} // verus!
