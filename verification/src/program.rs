//! Building the two shader programs.
//!
//! Building a program is a conversation with the device: a stage is
//! compiled and the device asked whether that worked, the program is linked
//! and the device asked again, and each attribute and uniform is asked for
//! by name. A [`ProgramBuild`] is such a conversation at the point where an
//! answer is awaited; [`ProgramBuild::resume`] takes the answer and either
//! asks the next question, or ends with the finished program or with the
//! reason why there is none.

use vstd::prelude::*;
use vstd::string::StringSliceAdditionalSpecFns;
use vstd::utf8::encode_utf8;
use shader_version::glsl::GLSL;
use shader_version::Shaders;
use crate::back_end::{no_color, Colored, ColoredView, Textured, TexturedView};
use crate::back_end::{GlGraphics, GlGraphicsView};
use crate::error::{ConstructionError, ConstructionErrorView, ShaderStage, TextKind};
use crate::gl;
use crate::gl::{BlobView, Device, DeviceView, GLint, GLuint, GlCall, Reply, ReplyView};
use crate::glsl::{picked, registered, shaders_get, shaders_new, shaders_set, Glsl, OpenGl};
use crate::shader_utils::{compile_asked, compile_shader, compile_status, first_nul_is_unique};
use crate::shader_utils::{nul_at, nul_free, uniform_at, uniform_location};
use crate::shader_utils::{AttributeQuery, AttributeQueryView, AttributeView, DynamicAttribute};
use crate::shaders;
use crate::shaders::source_text;

verus! {

/// What a build waits for.
pub enum Waiting {
    /// Whether the vertex shader compiled. The fragment source, if there is
    /// one for the version, is kept for later.
    VertexStatus { fragment_source: Option<String> },
    /// The log of the vertex shader, which did not compile.
    VertexLog,
    /// Whether the fragment shader compiled.
    FragmentStatus,
    /// The log of the fragment shader, which did not compile.
    FragmentLog,
    /// Whether the program linked.
    LinkStatus,
    /// The log of the program, which did not link.
    LinkLog,
    /// The location of the attribute `pos`.
    Pos { query: AttributeQuery },
    /// The location of the attribute `color` of the colored program.
    ColorAttribute { pos: DynamicAttribute, query: AttributeQuery },
    /// The location of the uniform `color` of the textured program.
    ColorUniform { pos: DynamicAttribute },
    /// The location of the attribute `uv` of the textured program.
    Uv { pos: DynamicAttribute, color: GLint, query: AttributeQuery },
}

/// What a [`Waiting`] holds.
pub enum WaitingView {
    VertexStatus { fragment_source: Option<Seq<char>> },
    VertexLog,
    FragmentStatus,
    FragmentLog,
    LinkStatus,
    LinkLog,
    Pos { query: AttributeQueryView },
    ColorAttribute { pos: AttributeView, query: AttributeQueryView },
    ColorUniform { pos: AttributeView },
    Uv { pos: AttributeView, color: GLint, query: AttributeQueryView },
}

impl View for Waiting {
    type V = WaitingView;

    open spec fn view(&self) -> WaitingView {
        match *self {
            Waiting::VertexStatus { fragment_source } => WaitingView::VertexStatus {
                fragment_source: match fragment_source {
                    Some(s) => Some(s@),
                    None => None,
                },
            },
            Waiting::VertexLog => WaitingView::VertexLog,
            Waiting::FragmentStatus => WaitingView::FragmentStatus,
            Waiting::FragmentLog => WaitingView::FragmentLog,
            Waiting::LinkStatus => WaitingView::LinkStatus,
            Waiting::LinkLog => WaitingView::LinkLog,
            Waiting::Pos { query } => WaitingView::Pos { query: query@ },
            Waiting::ColorAttribute { pos, query } => WaitingView::ColorAttribute {
                pos: pos@,
                query: query@,
            },
            Waiting::ColorUniform { pos } => WaitingView::ColorUniform { pos: pos@ },
            Waiting::Uv { pos, color, query } => WaitingView::Uv { pos: pos@, color, query: query@ },
        }
    }
}

/// A program that is being built, at a point where the device owes an answer.
pub struct ProgramBuild {
    textured: bool,
    waiting: Waiting,
    vertex_shader: GLuint,
    fragment_shader: GLuint,
    program: GLuint,
    vao: GLuint,
}

/// What a [`ProgramBuild`] holds.
pub struct ProgramBuildView {
    /// Whether the textured program is built, or else the colored one.
    pub textured: bool,
    pub waiting: WaitingView,
    /// The device objects that exist so far; zero for those that do not.
    pub vertex_shader: GLuint,
    pub fragment_shader: GLuint,
    pub program: GLuint,
    pub vao: GLuint,
}

impl View for ProgramBuild {
    type V = ProgramBuildView;

    closed spec fn view(&self) -> ProgramBuildView {
        ProgramBuildView {
            textured: self.textured,
            waiting: self.waiting@,
            vertex_shader: self.vertex_shader,
            fragment_shader: self.fragment_shader,
            program: self.program,
            vao: self.vao,
        }
    }
}

/// Where a build stands after a step.
pub enum Step {
    /// The device has been asked a question, and the build goes on with
    /// the answer.
    Ask(ProgramBuild),
    /// The colored program is ready.
    Colored(Colored),
    /// The textured program is ready.
    Textured(Textured),
    /// There will be no program.
    Failed(ConstructionError),
}

/// What a [`Step`] holds.
pub enum Outcome {
    Ask(ProgramBuildView),
    Colored(ColoredView),
    Textured(TexturedView),
    Failed(ConstructionErrorView),
}

impl View for Step {
    type V = Outcome;

    open spec fn view(&self) -> Outcome {
        match *self {
            Step::Ask(b) => Outcome::Ask(b@),
            Step::Colored(c) => Outcome::Colored(c@),
            Step::Textured(t) => Outcome::Textured(t@),
            Step::Failed(e) => Outcome::Failed(e@),
        }
    }
}

impl Step {
    /// A finished program is a well-formed, empty batch.
    pub open spec fn wf(&self) -> bool {
        match *self {
            Step::Colored(c) => c.wf(),
            Step::Textured(t) => t.wf(),
            _ => true,
        }
    }
}

/// The name of the position attribute.
pub open spec fn pos_name() -> Seq<char> {
    "pos"@
}

/// The name of the color attribute and of the color uniform.
pub open spec fn color_name() -> Seq<char> {
    "color"@
}

/// The name of the attribute of the texture coordinates.
pub open spec fn uv_name() -> Seq<char> {
    "uv"@
}

/// The name of the fragment output.
pub open spec fn output_name() -> Seq<char> {
    "o_Color"@
}

/// The result of starting to compile a stage from `source`: the error and
/// the device where the source cannot be handed over, and else the device
/// with the question asked.
pub open spec fn compile_begun(d: DeviceView, shader_type: gl::GLenum, source: Seq<char>) -> (
    Option<ConstructionErrorView>,
    DeviceView,
) {
    if d.exhausted() {
        (Some(ConstructionErrorView::OutOfNames), d)
    } else if nul_free(encode_utf8(source)) {
        (None, compile_asked(d, shader_type, source))
    } else {
        (
            Some(
                ConstructionErrorView::InteriorNul {
                    text: TextKind::ShaderSource,
                    position: nul_at(encode_utf8(source)) as usize,
                },
            ),
            d.named(GlCall::CreateShader { shader: d.fresh(), shader_type }),
        )
    }
}

/// The device after the two shaders have been put together: a program is
/// created, the shaders attached, the fragment output bound to color
/// number zero, a vertex array reserved, the program linked, and the device
/// asked whether that worked.
pub open spec fn link_asked(d: DeviceView, vertex_shader: GLuint, fragment_shader: GLuint) -> DeviceView {
    let program = d.fresh();
    let d1 = d.named(GlCall::CreateProgram(program)).followed_by(
        seq![
            GlCall::AttachShader { program, shader: vertex_shader },
            GlCall::AttachShader { program, shader: fragment_shader },
        ],
    ).call_with(GlCall::BindFragDataLocation { program, color: 0 }, BlobView::Text(output_name()));
    d1.named(GlCall::GenVertexArray(d1.fresh())).followed_by(
        seq![GlCall::LinkProgram(program), GlCall::GetLinkStatus(program)],
    )
}

/// The device after the two shaders have been attached to a new program
/// and the fragment output bound.
pub open spec fn attached(d: DeviceView, vertex_shader: GLuint, fragment_shader: GLuint) -> DeviceView {
    let program = d.fresh();
    d.named(GlCall::CreateProgram(program)).followed_by(
        seq![
            GlCall::AttachShader { program, shader: vertex_shader },
            GlCall::AttachShader { program, shader: fragment_shader },
        ],
    ).call_with(GlCall::BindFragDataLocation { program, color: 0 }, BlobView::Text(output_name()))
}

/// The result of putting the two shaders together: where no name is left
/// for the program or for the vertex array, the failure and the device as
/// far as it got; else the device with the question asked.
pub open spec fn link_begun(d: DeviceView, vertex_shader: GLuint, fragment_shader: GLuint) -> (
    Option<ConstructionErrorView>,
    DeviceView,
) {
    if d.exhausted() {
        (Some(ConstructionErrorView::OutOfNames), d)
    } else if attached(d, vertex_shader, fragment_shader).exhausted() {
        (Some(ConstructionErrorView::OutOfNames), attached(d, vertex_shader, fragment_shader))
    } else {
        (None, link_asked(d, vertex_shader, fragment_shader))
    }
}

/// The name of the vertex array that [`link_asked`] reserves.
pub open spec fn linked_vao(d: DeviceView) -> GLuint {
    d.named(GlCall::CreateProgram(d.fresh())).fresh()
}

/// The device after the location of the attribute `name` has been asked for.
pub open spec fn attribute_asked(d: DeviceView, program: GLuint, name: Seq<char>) -> DeviceView {
    d.call_with(GlCall::GetAttribLocation { program }, BlobView::Text(name))
}

/// The device after the attribute of the query has been given its buffer.
pub open spec fn attribute_bound(d: DeviceView, q: AttributeQueryView, id: GLint) -> DeviceView {
    d.named(GlCall::GenBuffer(d.fresh())).followed_by(q.attribute(d, id).bind_calls(q.vao))
}

/// The query for a two-component attribute of floats.
pub open spec fn query2(name: Seq<char>, vao: GLuint) -> AttributeQueryView {
    AttributeQueryView { name, size: 2, normalize: gl::FALSE, ty: gl::FLOAT, vao }
}

/// The query for a four-component attribute of floats.
pub open spec fn query4(name: Seq<char>, vao: GLuint) -> AttributeQueryView {
    AttributeQueryView { name, size: 4, normalize: gl::FALSE, ty: gl::FLOAT, vao }
}

impl ProgramBuildView {
    /// The same build, waiting for something else.
    pub open spec fn waiting_for(self, waiting: WaitingView) -> ProgramBuildView {
        ProgramBuildView { waiting, ..self }
    }

    /// The colored program that the build ends with.
    pub open spec fn colored(self, pos: AttributeView, color: AttributeView) -> ColoredView {
        ColoredView {
            vao: self.vao,
            vertex_shader: self.vertex_shader,
            fragment_shader: self.fragment_shader,
            program: self.program,
            pos,
            color,
            positions: Seq::empty(),
            colors: Seq::empty(),
        }
    }

    /// The textured program that the build ends with.
    pub open spec fn textured(self, pos: AttributeView, color: GLint, uv: AttributeView)
        -> TexturedView {
        TexturedView {
            vao: self.vao,
            vertex_shader: self.vertex_shader,
            fragment_shader: self.fragment_shader,
            program: self.program,
            color,
            pos,
            uv,
            positions: Seq::empty(),
            uvs: Seq::empty(),
            last_texture_id: 0,
            last_color: no_color(),
        }
    }
}

/// The first step of a build: the vertex source that was picked for the
/// version, if any, is compiled.
pub open spec fn begun(
    textured: bool,
    d: DeviceView,
    vertex_source: Option<Seq<char>>,
    fragment_source: Option<Seq<char>>,
) -> (Outcome, DeviceView) {
    match vertex_source {
        None => (
            Outcome::Failed(ConstructionErrorView::NoCompatibleShader(ShaderStage::Vertex)),
            d,
        ),
        Some(source) => match compile_begun(d, gl::VERTEX_SHADER, source) {
            (Some(e), d1) => (Outcome::Failed(e), d1),
            (None, d1) => (
                Outcome::Ask(
                    ProgramBuildView {
                        textured,
                        waiting: WaitingView::VertexStatus { fragment_source },
                        vertex_shader: d.fresh(),
                        fragment_shader: 0,
                        program: 0,
                        vao: 0,
                    },
                ),
                d1,
            ),
        },
    }
}

/// One step of a build: what the answer `reply` makes of the build `b` and
/// the device `d`.
///
/// A stage that did not compile, and a program that did not link, lead to
/// the question for the log, and the log to the failure. An attribute that
/// is found gets its buffer at once. An answer of the wrong kind ends the
/// build, and so does a device that has no name left for a new object.
pub open spec fn resumed(b: ProgramBuildView, d: DeviceView, reply: ReplyView) -> (
    Outcome,
    DeviceView,
) {
    match (b.waiting, reply) {
        (WaitingView::VertexStatus { fragment_source }, ReplyView::Status(true)) => {
            match fragment_source {
                None => (
                    Outcome::Failed(
                        ConstructionErrorView::NoCompatibleShader(ShaderStage::Fragment),
                    ),
                    d,
                ),
                Some(source) => match compile_begun(d, gl::FRAGMENT_SHADER, source) {
                    (Some(e), d1) => (Outcome::Failed(e), d1),
                    (None, d1) => (
                        Outcome::Ask(
                            ProgramBuildView {
                                waiting: WaitingView::FragmentStatus,
                                fragment_shader: d.fresh(),
                                ..b
                            },
                        ),
                        d1,
                    ),
                },
            }
        },
        (WaitingView::VertexStatus { .. }, ReplyView::Status(false)) => (
            Outcome::Ask(b.waiting_for(WaitingView::VertexLog)),
            d.call(GlCall::GetShaderInfoLog(b.vertex_shader)),
        ),
        (WaitingView::VertexLog, ReplyView::Log(log)) => (
            Outcome::Failed(
                ConstructionErrorView::ShaderCompile { stage: ShaderStage::Vertex, log },
            ),
            d,
        ),
        (WaitingView::FragmentStatus, ReplyView::Status(true)) => {
            match link_begun(d, b.vertex_shader, b.fragment_shader) {
                (Some(e), d1) => (Outcome::Failed(e), d1),
                (None, d1) => (
                    Outcome::Ask(
                        ProgramBuildView {
                            waiting: WaitingView::LinkStatus,
                            program: d.fresh(),
                            vao: linked_vao(d),
                            ..b
                        },
                    ),
                    d1,
                ),
            }
        },
        (WaitingView::FragmentStatus, ReplyView::Status(false)) => (
            Outcome::Ask(b.waiting_for(WaitingView::FragmentLog)),
            d.call(GlCall::GetShaderInfoLog(b.fragment_shader)),
        ),
        (WaitingView::FragmentLog, ReplyView::Log(log)) => (
            Outcome::Failed(
                ConstructionErrorView::ShaderCompile { stage: ShaderStage::Fragment, log },
            ),
            d,
        ),
        (WaitingView::LinkStatus, ReplyView::Status(true)) => (
            Outcome::Ask(b.waiting_for(WaitingView::Pos { query: query2(pos_name(), b.vao) })),
            attribute_asked(d, b.program, pos_name()),
        ),
        (WaitingView::LinkStatus, ReplyView::Status(false)) => (
            Outcome::Ask(b.waiting_for(WaitingView::LinkLog)),
            d.call(GlCall::GetProgramInfoLog(b.program)),
        ),
        (WaitingView::LinkLog, ReplyView::Log(log)) => (
            Outcome::Failed(ConstructionErrorView::ProgramLink { log }),
            d,
        ),
        (WaitingView::Pos { query }, ReplyView::Location(id)) => {
            if id < 0 {
                (
                    Outcome::Failed(ConstructionErrorView::AttributeNotFound { name: query.name }),
                    d,
                )
            } else if d.exhausted() {
                (Outcome::Failed(ConstructionErrorView::OutOfNames), d)
            } else if b.textured {
                (
                    Outcome::Ask(
                        b.waiting_for(WaitingView::ColorUniform { pos: query.attribute(d, id) }),
                    ),
                    attribute_bound(d, query, id).call_with(
                        GlCall::GetUniformLocation { program: b.program },
                        BlobView::Text(color_name()),
                    ),
                )
            } else {
                (
                    Outcome::Ask(
                        b.waiting_for(
                            WaitingView::ColorAttribute {
                                pos: query.attribute(d, id),
                                query: query4(color_name(), b.vao),
                            },
                        ),
                    ),
                    attribute_asked(attribute_bound(d, query, id), b.program, color_name()),
                )
            }
        },
        (WaitingView::ColorAttribute { pos, query }, ReplyView::Location(id)) => {
            if id < 0 {
                (
                    Outcome::Failed(ConstructionErrorView::AttributeNotFound { name: query.name }),
                    d,
                )
            } else if d.exhausted() {
                (Outcome::Failed(ConstructionErrorView::OutOfNames), d)
            } else {
                (
                    Outcome::Colored(b.colored(pos, query.attribute(d, id))),
                    attribute_bound(d, query, id),
                )
            }
        },
        (WaitingView::ColorUniform { pos }, ReplyView::Location(id)) => {
            if id < 0 {
                (
                    Outcome::Failed(ConstructionErrorView::UniformNotFound { name: color_name() }),
                    d,
                )
            } else {
                (
                    Outcome::Ask(
                        b.waiting_for(
                            WaitingView::Uv { pos, color: id, query: query2(uv_name(), b.vao) },
                        ),
                    ),
                    attribute_asked(d, b.program, uv_name()),
                )
            }
        },
        (WaitingView::Uv { pos, color, query }, ReplyView::Location(id)) => {
            if id < 0 {
                (
                    Outcome::Failed(ConstructionErrorView::AttributeNotFound { name: query.name }),
                    d,
                )
            } else if d.exhausted() {
                (Outcome::Failed(ConstructionErrorView::OutOfNames), d)
            } else {
                (
                    Outcome::Textured(b.textured(pos, color, query.attribute(d, id))),
                    attribute_bound(d, query, id),
                )
            }
        },
        _ => (Outcome::Failed(ConstructionErrorView::UnexpectedReply), d),
    }
}

/// The names that are handed to the device hold no zero byte.
proof fn names_are_nul_free()
    ensures
        nul_free(encode_utf8(pos_name())),
        nul_free(encode_utf8(color_name())),
        nul_free(encode_utf8(uv_name())),
{
    reveal_strlit("pos");
    reveal_strlit("color");
    reveal_strlit("uv");
    vstd::string::is_ascii_spec_bytes("pos");
    vstd::string::is_ascii_spec_bytes("color");
    vstd::string::is_ascii_spec_bytes("uv");
}

/// Starts to compile a stage.
fn begin_stage(dev: &mut Device, shader_type: gl::GLenum, source: &str) -> (r: Result<
    GLuint,
    ConstructionError,
>)
    ensures
        final(dev)@ == compile_begun(old(dev)@, shader_type, source@).1,
        match compile_begun(old(dev)@, shader_type, source@).0 {
            None => r == Ok::<GLuint, ConstructionError>(old(dev)@.fresh()),
            Some(e) => r matches Err(x) && x@ == e,
        },
{
    let r = compile_shader(dev, shader_type, source);
    proof {
        if let Err(ConstructionError::InteriorNul { text, position }) = r {
            first_nul_is_unique(source.spec_bytes(), position as int);
        }
    }
    r
}

/// Puts the two shaders together and asks whether the program linked.
/// Returns the program and the vertex array.
fn link(dev: &mut Device, vertex_shader: GLuint, fragment_shader: GLuint) -> (r: Result<
    (GLuint, GLuint),
    ConstructionError,
>)
    ensures
        final(dev)@ == link_begun(old(dev)@, vertex_shader, fragment_shader).1,
        match link_begun(old(dev)@, vertex_shader, fragment_shader).0 {
            None => r == Ok::<(GLuint, GLuint), ConstructionError>(
                (old(dev)@.fresh(), linked_vao(old(dev)@)),
            ),
            Some(e) => r matches Err(x) && x@ == e,
        },
{
    let program: GLuint = gl::CreateProgram(dev);
    if program == 0 {
        return Err(ConstructionError::OutOfNames);
    }
    gl::AttachShader(dev, program, vertex_shader);
    gl::AttachShader(dev, program, fragment_shader);
    gl::BindFragDataLocation(dev, program, 0, "o_Color");
    let ghost d1 = dev@;
    assert(d1.calls =~= old(dev)@.named(GlCall::CreateProgram(program)).followed_by(
        seq![
            GlCall::AttachShader { program, shader: vertex_shader },
            GlCall::AttachShader { program, shader: fragment_shader },
        ],
    ).call_with(
        GlCall::BindFragDataLocation { program, color: 0 },
        BlobView::Text(output_name()),
    ).calls);
    let vao: GLuint = gl::GenVertexArrays(dev);
    if vao == 0 {
        return Err(ConstructionError::OutOfNames);
    }
    gl::LinkProgram(dev, program);
    gl::GetLinkStatus(dev, program);
    assert(dev@.calls =~= link_asked(old(dev)@, vertex_shader, fragment_shader).calls);
    Ok((program, vao))
}

/// The text of a source, where there is one.
pub open spec fn text_of(source: Option<&str>) -> Option<Seq<char>> {
    match source {
        Some(s) => Some(s@),
        None => None,
    }
}

/// Starts a build with the sources that the two pickers hold for the version.
fn begin(
    dev: &mut Device,
    textured: bool,
    glsl: Glsl,
    vertex_shaders: &Shaders<GLSL, str>,
    fragment_shaders: &Shaders<GLSL, str>,
) -> (step: Step)
    ensures
        step.wf(),
        (step@, final(dev)@) == begun(
            textured,
            old(dev)@,
            picked(registered(*vertex_shaders), glsl),
            picked(registered(*fragment_shaders), glsl),
        ),
{
    let vertex_source = shaders_get(vertex_shaders, glsl);
    let fragment_source = shaders_get(fragment_shaders, glsl);
    ProgramBuild::begin(dev, textured, vertex_source, fragment_source)
}

impl ProgramBuild {
    /// Starts to build the textured program, or else the colored one, from
    /// the sources that were picked for the two stages: the vertex shader
    /// is compiled, and the device asked whether that worked.
    ///
    /// Without a vertex source there is no build, and nothing is sent to
    /// the device. A fragment source that is missing makes itself felt once
    /// the vertex shader has compiled.
    pub fn begin(
        dev: &mut Device,
        textured: bool,
        vertex_source: Option<&str>,
        fragment_source: Option<&str>,
    ) -> (step: Step)
        ensures
            step.wf(),
            (step@, final(dev)@) == begun(
                textured,
                old(dev)@,
                text_of(vertex_source),
                text_of(fragment_source),
            ),
    {
        let v_shader = match vertex_source {
            Some(source) => source,
            None => {
                return Step::Failed(ConstructionError::NoCompatibleShader(ShaderStage::Vertex));
            },
        };
        let vertex_shader: GLuint = match begin_stage(dev, gl::VERTEX_SHADER, v_shader) {
            Ok(shader) => shader,
            Err(e) => {
                return Step::Failed(e);
            },
        };
        let fragment_source = match fragment_source {
            Some(source) => Some(source.to_owned()),
            None => None,
        };
        Step::Ask(
            ProgramBuild {
                textured,
                waiting: Waiting::VertexStatus { fragment_source },
                vertex_shader,
                fragment_shader: 0,
                program: 0,
                vao: 0,
            },
        )
    }

    /// Goes on with the device's answer to the question that was asked last.
    pub fn resume(self, dev: &mut Device, reply: Reply) -> (step: Step)
        ensures
            step.wf(),
            (step@, final(dev)@) == resumed(self@, old(dev)@, reply@),
    {
        proof {
            names_are_nul_free();
        }
        let ProgramBuild { textured, waiting, vertex_shader, fragment_shader, program, vao } = self;
        match (waiting, reply) {
            (Waiting::VertexStatus { fragment_source }, Reply::Status(compiled)) => {
                if !compile_status(dev, vertex_shader, compiled) {
                    return Step::Ask(
                        ProgramBuild {
                            textured,
                            waiting: Waiting::VertexLog,
                            vertex_shader,
                            fragment_shader,
                            program,
                            vao,
                        },
                    );
                }
                let f_shader = match fragment_source {
                    Some(source) => source,
                    None => {
                        return Step::Failed(
                            ConstructionError::NoCompatibleShader(ShaderStage::Fragment),
                        );
                    },
                };
                match begin_stage(dev, gl::FRAGMENT_SHADER, f_shader.as_str()) {
                    Ok(shader) => Step::Ask(
                        ProgramBuild {
                            textured,
                            waiting: Waiting::FragmentStatus,
                            vertex_shader,
                            fragment_shader: shader,
                            program,
                            vao,
                        },
                    ),
                    Err(e) => Step::Failed(e),
                }
            },
            (Waiting::VertexLog, Reply::Log(log)) => Step::Failed(
                ConstructionError::ShaderCompile { stage: ShaderStage::Vertex, log },
            ),
            (Waiting::FragmentStatus, Reply::Status(compiled)) => {
                if !compile_status(dev, fragment_shader, compiled) {
                    return Step::Ask(
                        ProgramBuild {
                            textured,
                            waiting: Waiting::FragmentLog,
                            vertex_shader,
                            fragment_shader,
                            program,
                            vao,
                        },
                    );
                }
                match link(dev, vertex_shader, fragment_shader) {
                    Ok((program, vao)) => Step::Ask(
                        ProgramBuild {
                            textured,
                            waiting: Waiting::LinkStatus,
                            vertex_shader,
                            fragment_shader,
                            program,
                            vao,
                        },
                    ),
                    Err(e) => Step::Failed(e),
                }
            },
            (Waiting::FragmentLog, Reply::Log(log)) => Step::Failed(
                ConstructionError::ShaderCompile { stage: ShaderStage::Fragment, log },
            ),
            (Waiting::LinkStatus, Reply::Status(linked)) => {
                if !linked {
                    gl::GetProgramInfoLog(dev, program);
                    return Step::Ask(
                        ProgramBuild {
                            textured,
                            waiting: Waiting::LinkLog,
                            vertex_shader,
                            fragment_shader,
                            program,
                            vao,
                        },
                    );
                }
                match DynamicAttribute::xy(dev, program, "pos", vao) {
                    Ok(query) => Step::Ask(
                        ProgramBuild {
                            textured,
                            waiting: Waiting::Pos { query },
                            vertex_shader,
                            fragment_shader,
                            program,
                            vao,
                        },
                    ),
                    Err(e) => Step::Failed(e),
                }
            },
            (Waiting::LinkLog, Reply::Log(log)) => Step::Failed(
                ConstructionError::ProgramLink { log },
            ),
            (Waiting::Pos { query }, Reply::Location(id)) => {
                let pos = match query.resolve(dev, id) {
                    Ok(pos) => pos,
                    Err(e) => {
                        return Step::Failed(e);
                    },
                };
                if textured {
                    match uniform_location(dev, program, "color") {
                        Ok(()) => Step::Ask(
                            ProgramBuild {
                                textured,
                                waiting: Waiting::ColorUniform { pos },
                                vertex_shader,
                                fragment_shader,
                                program,
                                vao,
                            },
                        ),
                        Err(e) => Step::Failed(e),
                    }
                } else {
                    match DynamicAttribute::rgba(dev, program, "color", vao) {
                        Ok(query) => Step::Ask(
                            ProgramBuild {
                                textured,
                                waiting: Waiting::ColorAttribute { pos, query },
                                vertex_shader,
                                fragment_shader,
                                program,
                                vao,
                            },
                        ),
                        Err(e) => Step::Failed(e),
                    }
                }
            },
            (Waiting::ColorAttribute { pos, query }, Reply::Location(id)) => {
                match query.resolve(dev, id) {
                    Ok(color) => Step::Colored(
                        Colored::assemble(vao, vertex_shader, fragment_shader, program, pos, color),
                    ),
                    Err(e) => Step::Failed(e),
                }
            },
            (Waiting::ColorUniform { pos }, Reply::Location(id)) => {
                match uniform_at("color", id) {
                    Ok(_) => {},
                    Err(e) => {
                        return Step::Failed(e);
                    },
                }
                match DynamicAttribute::uv(dev, program, "uv", vao) {
                    Ok(query) => Step::Ask(
                        ProgramBuild {
                            textured,
                            waiting: Waiting::Uv { pos, color: id, query },
                            vertex_shader,
                            fragment_shader,
                            program,
                            vao,
                        },
                    ),
                    Err(e) => Step::Failed(e),
                }
            },
            (Waiting::Uv { pos, color, query }, Reply::Location(id)) => {
                match query.resolve(dev, id) {
                    Ok(uv) => Step::Textured(
                        Textured::assemble(
                            vao,
                            vertex_shader,
                            fragment_shader,
                            program,
                            pos,
                            color,
                            uv,
                        ),
                    ),
                    Err(e) => Step::Failed(e),
                }
            },
            _ => Step::Failed(ConstructionError::UnexpectedReply),
        }
    }
}

/// The source that is picked for `version` among the two that the back end
/// comes with for a stage of a program: none for 1.10, the one in GLSL 1.20
/// up to 1.40, the one in GLSL 1.50 core from 1.50 on.
pub open spec fn shipped_for(textured: bool, fragment: bool, version: Glsl) -> Option<Seq<char>> {
    if version.rank() < 1 {
        None
    } else if version.rank() < 4 {
        Some(source_text(textured, fragment, false))
    } else {
        Some(source_text(textured, fragment, true))
    }
}

impl Colored {
    /// Generate using pass-through shaders.
    ///
    /// Starts to build the colored program from the sources that the back
    /// end comes with.
    pub fn new(dev: &mut Device, glsl: Glsl) -> (step: Step)
        ensures
            step.wf(),
            (step@, final(dev)@) == begun(
                false,
                old(dev)@,
                shipped_for(false, false, glsl),
                shipped_for(false, true, glsl),
            ),
            !meets_zero_byte(step@),
            step@ matches Outcome::Ask(b) ==> b.plain(),
    {
        proof {
            shipped_sources_begin_plain(false, old(dev)@, glsl);
        }
        let mut vertex_shaders = shaders_new();
        shaders_set(&mut vertex_shaders, Glsl::V1_20, shaders::colored_vertex_120());
        shaders_set(&mut vertex_shaders, Glsl::V1_50, shaders::colored_vertex_150());
        let mut fragment_shaders = shaders_new();
        shaders_set(&mut fragment_shaders, Glsl::V1_20, shaders::colored_fragment_120());
        shaders_set(&mut fragment_shaders, Glsl::V1_50, shaders::colored_fragment_150());
        proof {
            crate::glsl::picked_of_two(registered(vertex_shaders), glsl);
            crate::glsl::picked_of_two(registered(fragment_shaders), glsl);
        }
        Colored::from_vs_fs(dev, glsl, &vertex_shaders, &fragment_shaders)
    }

    /// Generate using custom vertex and fragment shaders.
    ///
    /// Starts to build the colored program from the sources that the two
    /// pickers hold for `glsl`.
    pub fn from_vs_fs(
        dev: &mut Device,
        glsl: Glsl,
        vertex_shaders: &Shaders<GLSL, str>,
        fragment_shaders: &Shaders<GLSL, str>,
    ) -> (step: Step)
        ensures
            step.wf(),
            (step@, final(dev)@) == begun(
                false,
                old(dev)@,
                picked(registered(*vertex_shaders), glsl),
                picked(registered(*fragment_shaders), glsl),
            ),
    {
        begin(dev, false, glsl, vertex_shaders, fragment_shaders)
    }
}

impl Textured {
    /// Generate using pass-through shaders.
    ///
    /// Starts to build the textured program from the sources that the back
    /// end comes with.
    pub fn new(dev: &mut Device, glsl: Glsl) -> (step: Step)
        ensures
            step.wf(),
            (step@, final(dev)@) == begun(
                true,
                old(dev)@,
                shipped_for(true, false, glsl),
                shipped_for(true, true, glsl),
            ),
            !meets_zero_byte(step@),
            step@ matches Outcome::Ask(b) ==> b.plain(),
    {
        proof {
            shipped_sources_begin_plain(true, old(dev)@, glsl);
        }
        let mut vertex_shaders = shaders_new();
        shaders_set(&mut vertex_shaders, Glsl::V1_20, shaders::textured_vertex_120());
        shaders_set(&mut vertex_shaders, Glsl::V1_50, shaders::textured_vertex_150());
        let mut fragment_shaders = shaders_new();
        shaders_set(&mut fragment_shaders, Glsl::V1_20, shaders::textured_fragment_120());
        shaders_set(&mut fragment_shaders, Glsl::V1_50, shaders::textured_fragment_150());
        proof {
            crate::glsl::picked_of_two(registered(vertex_shaders), glsl);
            crate::glsl::picked_of_two(registered(fragment_shaders), glsl);
        }
        Textured::from_vs_fs(dev, glsl, &vertex_shaders, &fragment_shaders)
    }

    /// Generate using custom vertex and fragment shaders.
    ///
    /// Starts to build the textured program from the sources that the two
    /// pickers hold for `glsl`.
    pub fn from_vs_fs(
        dev: &mut Device,
        glsl: Glsl,
        vertex_shaders: &Shaders<GLSL, str>,
        fragment_shaders: &Shaders<GLSL, str>,
    ) -> (step: Step)
        ensures
            step.wf(),
            (step@, final(dev)@) == begun(
                true,
                old(dev)@,
                picked(registered(*vertex_shaders), glsl),
                picked(registered(*fragment_shaders), glsl),
            ),
    {
        begin(dev, true, glsl, vertex_shaders, fragment_shaders)
    }
}

/// A renderer that is being built, at a point where the device owes an
/// answer: first the colored program is built, then the textured one.
pub struct GraphicsBuild {
    glsl: Glsl,
    colored: Option<Colored>,
    build: ProgramBuild,
}

/// What a [`GraphicsBuild`] holds.
pub struct GraphicsBuildView {
    pub glsl: Glsl,
    /// The colored program, once it is ready.
    pub colored: Option<ColoredView>,
    /// The program that is being built.
    pub build: ProgramBuildView,
}

impl View for GraphicsBuild {
    type V = GraphicsBuildView;

    closed spec fn view(&self) -> GraphicsBuildView {
        GraphicsBuildView {
            glsl: self.glsl,
            colored: match self.colored {
                Some(c) => Some(c@),
                None => None,
            },
            build: self.build@,
        }
    }
}

/// Where the build of a renderer stands after a step.
pub enum GraphicsStep {
    /// The device has been asked a question, and the build goes on with
    /// the answer.
    Ask(GraphicsBuild),
    /// The renderer is ready.
    Ready(GlGraphics),
    /// There will be no renderer.
    Failed(ConstructionError),
}

/// What a [`GraphicsStep`] holds.
pub enum GraphicsOutcome {
    Ask(GraphicsBuildView),
    Ready(GlGraphicsView),
    Failed(ConstructionErrorView),
}

impl View for GraphicsStep {
    type V = GraphicsOutcome;

    open spec fn view(&self) -> GraphicsOutcome {
        match *self {
            GraphicsStep::Ask(b) => GraphicsOutcome::Ask(b@),
            GraphicsStep::Ready(g) => GraphicsOutcome::Ready(g@),
            GraphicsStep::Failed(e) => GraphicsOutcome::Failed(e@),
        }
    }
}

impl GraphicsStep {
    /// A renderer that is ready, or still being built, is well formed.
    pub open spec fn wf(&self) -> bool {
        match *self {
            GraphicsStep::Ask(b) => b.wf(),
            GraphicsStep::Ready(g) => g.wf(),
            GraphicsStep::Failed(_) => true,
        }
    }
}

/// The renderer that is made of two fresh programs: nothing is known of
/// the device's program, draw state or viewport.
pub open spec fn fresh_graphics(colored: ColoredView, textured: TexturedView) -> GlGraphicsView {
    GlGraphicsView {
        colored,
        textured,
        current_program: None,
        current_draw_state: None,
        current_viewport: None,
    }
}

/// What a step of a program's build means for the build of the renderer.
/// Once the colored program is ready, the textured one is begun; once that
/// is ready, so is the renderer.
pub open spec fn graphics_after(
    glsl: Glsl,
    colored: Option<ColoredView>,
    r: (Outcome, DeviceView),
) -> (GraphicsOutcome, DeviceView) {
    match r.0 {
        Outcome::Ask(build) => (
            GraphicsOutcome::Ask(GraphicsBuildView { glsl, colored, build }),
            r.1,
        ),
        Outcome::Failed(e) => (GraphicsOutcome::Failed(e), r.1),
        Outcome::Colored(c) => {
            let next = begun(
                true,
                r.1,
                shipped_for(true, false, glsl),
                shipped_for(true, true, glsl),
            );
            match next.0 {
                Outcome::Ask(build) => (
                    GraphicsOutcome::Ask(GraphicsBuildView { glsl, colored: Some(c), build }),
                    next.1,
                ),
                Outcome::Failed(e) => (GraphicsOutcome::Failed(e), next.1),
                _ => (GraphicsOutcome::Failed(ConstructionErrorView::UnexpectedReply), next.1),
            }
        },
        Outcome::Textured(t) => match colored {
            Some(c) => (GraphicsOutcome::Ready(fresh_graphics(c, t)), r.1),
            None => (GraphicsOutcome::Failed(ConstructionErrorView::UnexpectedReply), r.1),
        },
    }
}

/// The first step of the build of a renderer for a version of OpenGL.
pub open spec fn graphics_begun(d: DeviceView, opengl: OpenGl) -> (GraphicsOutcome, DeviceView) {
    graphics_after(
        opengl.glsl(),
        None,
        begun(
            false,
            d,
            shipped_for(false, false, opengl.glsl()),
            shipped_for(false, true, opengl.glsl()),
        ),
    )
}

/// One step of the build of a renderer.
pub open spec fn graphics_resumed(b: GraphicsBuildView, d: DeviceView, reply: ReplyView) -> (
    GraphicsOutcome,
    DeviceView,
) {
    graphics_after(b.glsl, b.colored, resumed(b.build, d, reply))
}

/// Takes a step of a program's build into the build of the renderer.
fn graphics_step(dev: &mut Device, glsl: Glsl, colored: Option<Colored>, step: Step) -> (r:
    GraphicsStep)
    requires
        step.wf(),
        colored matches Some(c) ==> c.wf(),
    ensures
        r.wf(),
        (r@, final(dev)@) == graphics_after(
            glsl,
            match colored {
                Some(c) => Some(c@),
                None => None,
            },
            (step@, old(dev)@),
        ),
{
    match step {
        Step::Ask(build) => GraphicsStep::Ask(GraphicsBuild { glsl, colored, build }),
        Step::Failed(e) => GraphicsStep::Failed(e),
        Step::Colored(c) => match Textured::new(dev, glsl) {
            Step::Ask(build) => GraphicsStep::Ask(GraphicsBuild { glsl, colored: Some(c), build }),
            Step::Failed(e) => GraphicsStep::Failed(e),
            _ => GraphicsStep::Failed(ConstructionError::UnexpectedReply),
        },
        Step::Textured(t) => match colored {
            Some(c) => GraphicsStep::Ready(GlGraphics::from_colored_textured(c, t)),
            None => GraphicsStep::Failed(ConstructionError::UnexpectedReply),
        },
    }
}

impl GraphicsBuild {
    /// The colored program, where it is ready, is well formed.
    pub closed spec fn wf(&self) -> bool {
        self.colored matches Some(c) ==> c.wf()
    }

    /// Goes on with the device's answer to the question that was asked last.
    pub fn resume(self, dev: &mut Device, reply: Reply) -> (step: GraphicsStep)
        requires
            self.wf(),
        ensures
            step.wf(),
            (step@, final(dev)@) == graphics_resumed(self@, old(dev)@, reply@),
    {
        let GraphicsBuild { glsl, colored, build } = self;
        let step = build.resume(dev, reply);
        graphics_step(dev, glsl, colored, step)
    }
}

impl GlGraphics {
    /// Creates a new OpenGL back-end.
    ///
    /// Starts to build the renderer for the shading language that came with
    /// the version of OpenGL.
    pub fn new(dev: &mut Device, opengl: OpenGl) -> (step: GraphicsStep)
        ensures
            step.wf(),
            (step@, final(dev)@) == graphics_begun(old(dev)@, opengl),
            !meets_zero_byte_at_all(step@),
            step@ matches GraphicsOutcome::Ask(b) ==> b.build.plain(),
    {
        proof {
            the_renderer_begins_plain(old(dev)@, opengl);
        }
        let glsl = opengl.to_glsl();
        let step = Colored::new(dev, glsl);
        graphics_step(dev, glsl, None, step)
    }
}

/// What a sequence of answers makes of a build: the answers are taken one
/// by one until the build ends or no answer is left.
pub open spec fn answered(b: ProgramBuildView, d: DeviceView, replies: Seq<ReplyView>) -> (
    Outcome,
    DeviceView,
)
    decreases replies.len(),
{
    if replies.len() == 0 {
        (Outcome::Ask(b), d)
    } else {
        match resumed(b, d, replies.first()) {
            (Outcome::Ask(next), d1) => answered(next, d1, replies.drop_first()),
            end => end,
        }
    }
}

/// The commands of a build that meets no obstacle, up to the question for
/// the position attribute, on a device that has handed out `n` names.
pub open spec fn willing_calls(n: nat) -> Seq<GlCall> {
    let vertex_shader = (n + 1) as GLuint;
    let fragment_shader = (n + 2) as GLuint;
    let program = (n + 3) as GLuint;
    let vao = (n + 4) as GLuint;
    seq![
        GlCall::CreateShader { shader: vertex_shader, shader_type: gl::VERTEX_SHADER },
        GlCall::ShaderSource(vertex_shader),
        GlCall::CompileShader(vertex_shader),
        GlCall::GetCompileStatus(vertex_shader),
        GlCall::CreateShader { shader: fragment_shader, shader_type: gl::FRAGMENT_SHADER },
        GlCall::ShaderSource(fragment_shader),
        GlCall::CompileShader(fragment_shader),
        GlCall::GetCompileStatus(fragment_shader),
        GlCall::CreateProgram(program),
        GlCall::AttachShader { program, shader: vertex_shader },
        GlCall::AttachShader { program, shader: fragment_shader },
        GlCall::BindFragDataLocation { program, color: 0 },
        GlCall::GenVertexArray(vao),
        GlCall::LinkProgram(program),
        GlCall::GetLinkStatus(program),
        GlCall::GetAttribLocation { program },
    ]
}

/// The attribute of floats that lives at `location` and is fed by `vbo`.
pub open spec fn float_attribute(vbo: GLuint, size: i32, location: GLint) -> AttributeView {
    AttributeView { vbo, size, location: location as GLuint, normalize: gl::FALSE, ty: gl::FLOAT }
}

/// The commands that give an attribute its buffer.
pub open spec fn buffer_calls(a: AttributeView, vao: GLuint) -> Seq<GlCall> {
    seq![GlCall::GenBuffer(a.vbo)] + a.bind_calls(vao)
}

/// With a device that compiles and links without complaint and knows both
/// attributes, five answers build the colored program.
///
/// On a device that has handed out `n` names, the vertex shader, the
/// fragment shader, the program, the vertex array and the buffers of
/// `pos` and `color` get the names `n + 1` to `n + 6`, in this order. The
/// device receives the sources, the name of the fragment output and the
/// names of the two attributes as text, and the commands in the order
/// given here.
pub proof fn colored_build_on_a_willing_device(
    d: DeviceView,
    vertex_source: Seq<char>,
    fragment_source: Seq<char>,
    pos: GLint,
    color: GLint,
)
    requires
        d.names + 6 < u32::MAX,
        nul_free(encode_utf8(vertex_source)),
        nul_free(encode_utf8(fragment_source)),
        pos >= 0,
        color >= 0,
    ensures
        ({
            let start = begun(false, d, Some(vertex_source), Some(fragment_source));
            let n = d.names;
            let program = (n + 3) as GLuint;
            let vao = (n + 4) as GLuint;
            let pos_attribute = float_attribute((n + 5) as GLuint, 2, pos);
            let color_attribute = float_attribute((n + 6) as GLuint, 4, color);
            &&& start.0 matches Outcome::Ask(b)
            &&& answered(
                b,
                start.1,
                seq![
                    ReplyView::Status(true),
                    ReplyView::Status(true),
                    ReplyView::Status(true),
                    ReplyView::Location(pos),
                    ReplyView::Location(color),
                ],
            ) == (
                Outcome::Colored(
                    ColoredView {
                        vao,
                        vertex_shader: (n + 1) as GLuint,
                        fragment_shader: (n + 2) as GLuint,
                        program,
                        pos: pos_attribute,
                        color: color_attribute,
                        positions: Seq::empty(),
                        colors: Seq::empty(),
                    },
                ),
                DeviceView {
                    calls: d.calls + willing_calls(n) + buffer_calls(pos_attribute, vao) + seq![
                        GlCall::GetAttribLocation { program },
                    ] + buffer_calls(color_attribute, vao),
                    blobs: d.blobs + seq![
                        BlobView::Text(vertex_source),
                        BlobView::Text(fragment_source),
                        BlobView::Text(output_name()),
                        BlobView::Text(pos_name()),
                        BlobView::Text(color_name()),
                    ],
                    names: n + 6,
                },
            )
        }),
{
    reveal_with_fuel(answered, 6);
    let start = begun(false, d, Some(vertex_source), Some(fragment_source));
    let n = d.names;
    let program = (n + 3) as GLuint;
    let vao = (n + 4) as GLuint;
    let pos_attribute = float_attribute((n + 5) as GLuint, 2, pos);
    let color_attribute = float_attribute((n + 6) as GLuint, 4, color);
    let b0 = start.0->Ask_0;
    let r1 = resumed(b0, start.1, ReplyView::Status(true));
    let b1 = r1.0->Ask_0;
    let r2 = resumed(b1, r1.1, ReplyView::Status(true));
    let b2 = r2.0->Ask_0;
    let r3 = resumed(b2, r2.1, ReplyView::Status(true));
    let b3 = r3.0->Ask_0;
    let r4 = resumed(b3, r3.1, ReplyView::Location(pos));
    let b4 = r4.0->Ask_0;
    let r5 = resumed(b4, r4.1, ReplyView::Location(color));
    assert(r5.1.calls =~= d.calls + willing_calls(n) + buffer_calls(pos_attribute, vao) + seq![
        GlCall::GetAttribLocation { program },
    ] + buffer_calls(color_attribute, vao));
    assert(r5.1.blobs =~= d.blobs + seq![
        BlobView::Text(vertex_source),
        BlobView::Text(fragment_source),
        BlobView::Text(output_name()),
        BlobView::Text(pos_name()),
        BlobView::Text(color_name()),
    ]);
}

/// With a device that compiles and links without complaint and knows the
/// two attributes and the uniform, six answers build the textured program.
///
/// On a device that has handed out `n` names, the vertex shader, the
/// fragment shader, the program, the vertex array and the buffers of `pos`
/// and `uv` get the names `n + 1` to `n + 6`, in this order. The batch
/// starts without a texture and with a color that is all zero.
pub proof fn textured_build_on_a_willing_device(
    d: DeviceView,
    vertex_source: Seq<char>,
    fragment_source: Seq<char>,
    pos: GLint,
    color: GLint,
    uv: GLint,
)
    requires
        d.names + 6 < u32::MAX,
        nul_free(encode_utf8(vertex_source)),
        nul_free(encode_utf8(fragment_source)),
        pos >= 0,
        color >= 0,
        uv >= 0,
    ensures
        ({
            let start = begun(true, d, Some(vertex_source), Some(fragment_source));
            let n = d.names;
            let program = (n + 3) as GLuint;
            let vao = (n + 4) as GLuint;
            let pos_attribute = float_attribute((n + 5) as GLuint, 2, pos);
            let uv_attribute = float_attribute((n + 6) as GLuint, 2, uv);
            &&& start.0 matches Outcome::Ask(b)
            &&& answered(
                b,
                start.1,
                seq![
                    ReplyView::Status(true),
                    ReplyView::Status(true),
                    ReplyView::Status(true),
                    ReplyView::Location(pos),
                    ReplyView::Location(color),
                    ReplyView::Location(uv),
                ],
            ) == (
                Outcome::Textured(
                    TexturedView {
                        vao,
                        vertex_shader: (n + 1) as GLuint,
                        fragment_shader: (n + 2) as GLuint,
                        program,
                        color,
                        pos: pos_attribute,
                        uv: uv_attribute,
                        positions: Seq::empty(),
                        uvs: Seq::empty(),
                        last_texture_id: 0,
                        last_color: no_color(),
                    },
                ),
                DeviceView {
                    calls: d.calls + willing_calls(n) + buffer_calls(pos_attribute, vao) + seq![
                        GlCall::GetUniformLocation { program },
                        GlCall::GetAttribLocation { program },
                    ] + buffer_calls(uv_attribute, vao),
                    blobs: d.blobs + seq![
                        BlobView::Text(vertex_source),
                        BlobView::Text(fragment_source),
                        BlobView::Text(output_name()),
                        BlobView::Text(pos_name()),
                        BlobView::Text(color_name()),
                        BlobView::Text(uv_name()),
                    ],
                    names: n + 6,
                },
            )
        }),
{
    reveal_with_fuel(answered, 7);
    let start = begun(true, d, Some(vertex_source), Some(fragment_source));
    let n = d.names;
    let program = (n + 3) as GLuint;
    let vao = (n + 4) as GLuint;
    let pos_attribute = float_attribute((n + 5) as GLuint, 2, pos);
    let uv_attribute = float_attribute((n + 6) as GLuint, 2, uv);
    let b0 = start.0->Ask_0;
    let r1 = resumed(b0, start.1, ReplyView::Status(true));
    let b1 = r1.0->Ask_0;
    let r2 = resumed(b1, r1.1, ReplyView::Status(true));
    let b2 = r2.0->Ask_0;
    let r3 = resumed(b2, r2.1, ReplyView::Status(true));
    let b3 = r3.0->Ask_0;
    let r4 = resumed(b3, r3.1, ReplyView::Location(pos));
    let b4 = r4.0->Ask_0;
    let r5 = resumed(b4, r4.1, ReplyView::Location(color));
    let b5 = r5.0->Ask_0;
    let r6 = resumed(b5, r5.1, ReplyView::Location(uv));
    assert(r6.1.calls =~= d.calls + willing_calls(n) + buffer_calls(pos_attribute, vao) + seq![
        GlCall::GetUniformLocation { program },
        GlCall::GetAttribLocation { program },
    ] + buffer_calls(uv_attribute, vao));
    assert(r6.1.blobs =~= d.blobs + seq![
        BlobView::Text(vertex_source),
        BlobView::Text(fragment_source),
        BlobView::Text(output_name()),
        BlobView::Text(pos_name()),
        BlobView::Text(color_name()),
        BlobView::Text(uv_name()),
    ]);
}

/// A stage that does not compile ends the build with the device's log.
///
/// For the vertex stage: the device is asked for the log of the shader, and
/// the build fails with that log, verbatim, and names the stage.
pub proof fn a_vertex_shader_that_fails(b: ProgramBuildView, d: DeviceView, log: Seq<char>)
    requires
        b.waiting is VertexStatus,
    ensures
        answered(b, d, seq![ReplyView::Status(false), ReplyView::Log(log)]) == (
            Outcome::Failed(
                ConstructionErrorView::ShaderCompile { stage: ShaderStage::Vertex, log },
            ),
            d.call(GlCall::GetShaderInfoLog(b.vertex_shader)),
        ),
{
    reveal_with_fuel(answered, 3);
}

/// For the fragment stage, likewise.
pub proof fn a_fragment_shader_that_fails(b: ProgramBuildView, d: DeviceView, log: Seq<char>)
    requires
        b.waiting is FragmentStatus,
    ensures
        answered(b, d, seq![ReplyView::Status(false), ReplyView::Log(log)]) == (
            Outcome::Failed(
                ConstructionErrorView::ShaderCompile { stage: ShaderStage::Fragment, log },
            ),
            d.call(GlCall::GetShaderInfoLog(b.fragment_shader)),
        ),
{
    reveal_with_fuel(answered, 3);
}

/// A program that does not link ends the build with the device's log.
pub proof fn a_program_that_fails(b: ProgramBuildView, d: DeviceView, log: Seq<char>)
    requires
        b.waiting is LinkStatus,
    ensures
        answered(b, d, seq![ReplyView::Status(false), ReplyView::Log(log)]) == (
            Outcome::Failed(ConstructionErrorView::ProgramLink { log }),
            d.call(GlCall::GetProgramInfoLog(b.program)),
        ),
{
    reveal_with_fuel(answered, 3);
}

/// An attribute or a uniform that the program does not have ends the build,
/// and the failure names it. Nothing more is sent to the device.
pub proof fn a_binding_that_is_missing(b: ProgramBuildView, d: DeviceView, id: GLint)
    requires
        id < 0,
        b.waiting is Pos || b.waiting is ColorAttribute || b.waiting is ColorUniform
            || b.waiting is Uv,
    ensures
        resumed(b, d, ReplyView::Location(id)).1 == d,
        resumed(b, d, ReplyView::Location(id)).0 == Outcome::Failed(
            match b.waiting {
                WaitingView::Pos { query } => ConstructionErrorView::AttributeNotFound {
                    name: query.name,
                },
                WaitingView::ColorAttribute { query, .. } => ConstructionErrorView::AttributeNotFound {
                    name: query.name,
                },
                WaitingView::Uv { query, .. } => ConstructionErrorView::AttributeNotFound {
                    name: query.name,
                },
                _ => ConstructionErrorView::UniformNotFound { name: color_name() },
            },
        ),
{
}

/// Whether a step ended the build over a zero byte in a text.
pub open spec fn meets_zero_byte(outcome: Outcome) -> bool {
    outcome matches Outcome::Failed(ConstructionErrorView::InteriorNul { .. })
}

/// Whether a step ended the build of the renderer over a zero byte in a
/// text.
pub open spec fn meets_zero_byte_at_all(outcome: GraphicsOutcome) -> bool {
    outcome matches GraphicsOutcome::Failed(ConstructionErrorView::InteriorNul { .. })
}

/// Whether a source, where there is one, has no zero byte.
pub open spec fn without_zero_byte(source: Option<Seq<char>>) -> bool {
    source matches Some(text) ==> nul_free(encode_utf8(text))
}

impl ProgramBuildView {
    /// Whether the fragment source that the build keeps for later, if it
    /// keeps one, has no zero byte.
    pub open spec fn plain(self) -> bool {
        self.waiting matches WaitingView::VertexStatus { fragment_source }
            ==> without_zero_byte(fragment_source)
    }
}

/// The sources that are picked among those that the back end comes with
/// have no zero byte.
pub proof fn shipped_sources_have_no_zero_byte(textured: bool, fragment: bool, version: Glsl)
    ensures
        without_zero_byte(shipped_for(textured, fragment, version)),
{
    shaders::sources_are_plain(textured, fragment, false);
    shaders::sources_are_plain(textured, fragment, true);
}

/// A build from sources without a zero byte does not begin by failing over
/// one, and keeps no source with one.
pub proof fn plain_sources_begin_plain(
    textured: bool,
    d: DeviceView,
    vertex_source: Option<Seq<char>>,
    fragment_source: Option<Seq<char>>,
)
    requires
        without_zero_byte(vertex_source),
        without_zero_byte(fragment_source),
    ensures
        !meets_zero_byte(begun(textured, d, vertex_source, fragment_source).0),
        begun(textured, d, vertex_source, fragment_source).0 matches Outcome::Ask(b) ==> b.plain(),
{
}

/// A build from the sources that the back end comes with does not begin by
/// failing over a zero byte, and keeps no source with one.
pub proof fn shipped_sources_begin_plain(textured: bool, d: DeviceView, version: Glsl)
    ensures
        !meets_zero_byte(
            begun(
                textured,
                d,
                shipped_for(textured, false, version),
                shipped_for(textured, true, version),
            ).0,
        ),
        begun(
            textured,
            d,
            shipped_for(textured, false, version),
            shipped_for(textured, true, version),
        ).0 matches Outcome::Ask(b) ==> b.plain(),
{
    shipped_sources_have_no_zero_byte(textured, false, version);
    shipped_sources_have_no_zero_byte(textured, true, version);
    plain_sources_begin_plain(
        textured,
        d,
        shipped_for(textured, false, version),
        shipped_for(textured, true, version),
    );
}

/// A build that keeps no source with a zero byte does not fail over one at
/// its next step, whatever the device answers, and goes on keeping none.
pub proof fn a_plain_build_stays_plain(b: ProgramBuildView, d: DeviceView, reply: ReplyView)
    requires
        b.plain(),
    ensures
        !meets_zero_byte(resumed(b, d, reply).0),
        resumed(b, d, reply).0 matches Outcome::Ask(next) ==> next.plain(),
{
}

/// A build that keeps no source with a zero byte never fails over one,
/// whatever the device answers. So it is with every build from the sources
/// that the back end comes with.
pub proof fn a_plain_build_meets_no_zero_byte(
    b: ProgramBuildView,
    d: DeviceView,
    replies: Seq<ReplyView>,
)
    requires
        b.plain(),
    ensures
        !meets_zero_byte(answered(b, d, replies).0),
        answered(b, d, replies).0 matches Outcome::Ask(next) ==> next.plain(),
    decreases replies.len(),
{
    if replies.len() > 0 {
        a_plain_build_stays_plain(b, d, replies.first());
        match resumed(b, d, replies.first()) {
            (Outcome::Ask(next), d1) => {
                a_plain_build_meets_no_zero_byte(next, d1, replies.drop_first());
            },
            _ => {},
        }
    }
}

/// What a sequence of answers makes of the build of a renderer.
pub open spec fn graphics_answered(b: GraphicsBuildView, d: DeviceView, replies: Seq<ReplyView>)
    -> (GraphicsOutcome, DeviceView)
    decreases replies.len(),
{
    if replies.len() == 0 {
        (GraphicsOutcome::Ask(b), d)
    } else {
        match graphics_resumed(b, d, replies.first()) {
            (GraphicsOutcome::Ask(next), d1) => graphics_answered(next, d1, replies.drop_first()),
            end => end,
        }
    }
}

/// The build of a renderer does not begin by failing over a zero byte, and
/// keeps no source with one.
pub proof fn the_renderer_begins_plain(d: DeviceView, opengl: OpenGl)
    ensures
        !meets_zero_byte_at_all(graphics_begun(d, opengl).0),
        graphics_begun(d, opengl).0 matches GraphicsOutcome::Ask(b) ==> b.build.plain(),
{
    shipped_sources_begin_plain(false, d, opengl.glsl());
}

/// The build of a renderer that keeps no source with a zero byte does not
/// fail over one at its next step, whatever the device answers, and goes on
/// keeping none: neither while the colored program is built nor when the
/// textured one is begun.
pub proof fn the_renderer_stays_plain(b: GraphicsBuildView, d: DeviceView, reply: ReplyView)
    requires
        b.build.plain(),
    ensures
        !meets_zero_byte_at_all(graphics_resumed(b, d, reply).0),
        graphics_resumed(b, d, reply).0 matches GraphicsOutcome::Ask(next) ==> next.build.plain(),
{
    a_plain_build_stays_plain(b.build, d, reply);
    shipped_sources_begin_plain(true, resumed(b.build, d, reply).1, b.glsl);
}

/// The renderer is never left unbuilt over a zero byte in a text, whatever
/// the device answers.
pub proof fn the_renderer_meets_no_zero_byte(
    b: GraphicsBuildView,
    d: DeviceView,
    replies: Seq<ReplyView>,
)
    requires
        b.build.plain(),
    ensures
        !meets_zero_byte_at_all(graphics_answered(b, d, replies).0),
    decreases replies.len(),
{
    if replies.len() > 0 {
        the_renderer_stays_plain(b, d, replies.first());
        match graphics_resumed(b, d, replies.first()) {
            (GraphicsOutcome::Ask(next), d1) => {
                the_renderer_meets_no_zero_byte(next, d1, replies.drop_first());
            },
            _ => {},
        }
    }
}

} // verus!
