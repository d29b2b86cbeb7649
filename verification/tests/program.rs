use opengl_graphics::back_end::{Colored, GlGraphics, Textured};
use opengl_graphics::error::{ConstructionError, ShaderStage, TextKind};
use opengl_graphics::gl;
use opengl_graphics::gl::{Blob, Device, GlCall, Reply};
use opengl_graphics::glsl::{Glsl, OpenGl};
use opengl_graphics::program::{GraphicsStep, ProgramBuild, Step};
use shader_version::glsl::GLSL;
use shader_version::Shaders;

const VERSIONS: [(Glsl, GLSL, OpenGl, shader_version::OpenGL); 12] = [
    (Glsl::V1_10, GLSL::V1_10, OpenGl::V2_0, shader_version::OpenGL::V2_0),
    (Glsl::V1_20, GLSL::V1_20, OpenGl::V2_1, shader_version::OpenGL::V2_1),
    (Glsl::V1_30, GLSL::V1_30, OpenGl::V3_0, shader_version::OpenGL::V3_0),
    (Glsl::V1_40, GLSL::V1_40, OpenGl::V3_1, shader_version::OpenGL::V3_1),
    (Glsl::V1_50, GLSL::V1_50, OpenGl::V3_2, shader_version::OpenGL::V3_2),
    (Glsl::V3_30, GLSL::V3_30, OpenGl::V3_3, shader_version::OpenGL::V3_3),
    (Glsl::V4_00, GLSL::V4_00, OpenGl::V4_0, shader_version::OpenGL::V4_0),
    (Glsl::V4_10, GLSL::V4_10, OpenGl::V4_1, shader_version::OpenGL::V4_1),
    (Glsl::V4_20, GLSL::V4_20, OpenGl::V4_2, shader_version::OpenGL::V4_2),
    (Glsl::V4_30, GLSL::V4_30, OpenGl::V4_3, shader_version::OpenGL::V4_3),
    (Glsl::V4_40, GLSL::V4_40, OpenGl::V4_4, shader_version::OpenGL::V4_4),
    (Glsl::V4_50, GLSL::V4_50, OpenGl::V4_5, shader_version::OpenGL::V4_5),
];

fn text(s: &str) -> Blob {
    Blob::Text(s.to_string())
}

fn source(bytes: &'static [u8]) -> Blob {
    text(std::str::from_utf8(bytes).unwrap())
}

fn ask(step: Step) -> ProgramBuild {
    match step {
        Step::Ask(build) => build,
        Step::Failed(e) => panic!("failed: {:?}", e),
        _ => panic!("ended early"),
    }
}

fn failed(step: Step) -> ConstructionError {
    match step {
        Step::Failed(e) => e,
        _ => panic!("did not fail"),
    }
}

fn compile(shader: u32, shader_type: u32) -> Vec<GlCall> {
    vec![
        GlCall::CreateShader { shader, shader_type },
        GlCall::ShaderSource(shader),
        GlCall::CompileShader(shader),
        GlCall::GetCompileStatus(shader),
    ]
}

fn link(program: u32, vertex_shader: u32, fragment_shader: u32, vao: u32) -> Vec<GlCall> {
    vec![
        GlCall::CreateProgram(program),
        GlCall::AttachShader { program, shader: vertex_shader },
        GlCall::AttachShader { program, shader: fragment_shader },
        GlCall::BindFragDataLocation { program, color: 0 },
        GlCall::GenVertexArray(vao),
        GlCall::LinkProgram(program),
        GlCall::GetLinkStatus(program),
    ]
}

fn bind(buffer: u32, vao: u32, index: u32, size: i32) -> Vec<GlCall> {
    vec![
        GlCall::GenBuffer(buffer),
        GlCall::BindVertexArray(vao),
        GlCall::BindBuffer { target: gl::ARRAY_BUFFER, buffer },
        GlCall::VertexAttribPointer {
            index,
            size,
            data_type: gl::FLOAT,
            normalized: gl::FALSE,
            stride: 0,
            offset: 0,
        },
    ]
}

#[test]
fn opengl_versions_have_their_shading_language() {
    for (glsl, _, opengl, theirs) in VERSIONS {
        assert_eq!(opengl.to_glsl(), glsl);
        let expected = VERSIONS.iter().find(|v| v.1 == theirs.to_glsl()).unwrap().0;
        assert_eq!(opengl.to_glsl(), expected);
    }
}

#[test]
fn the_colored_program_is_built_step_by_step() {
    let mut dev = Device::new();
    let build = ask(Colored::new(&mut dev, Glsl::V1_50));
    assert_eq!(dev.calls(), &compile(1, gl::VERTEX_SHADER));
    assert_eq!(dev.blobs(), &vec![source(shaders_graphics2d::colored::VERTEX_GLSL_150_CORE)]);
    dev.take();

    let build = ask(build.resume(&mut dev, Reply::Status(true)));
    assert_eq!(dev.calls(), &compile(2, gl::FRAGMENT_SHADER));
    assert_eq!(dev.blobs(), &vec![source(shaders_graphics2d::colored::FRAGMENT_GLSL_150_CORE)]);
    dev.take();

    let build = ask(build.resume(&mut dev, Reply::Status(true)));
    assert_eq!(dev.calls(), &link(3, 1, 2, 4));
    assert_eq!(dev.blobs(), &vec![text("o_Color")]);
    dev.take();

    let build = ask(build.resume(&mut dev, Reply::Status(true)));
    assert_eq!(dev.calls(), &vec![GlCall::GetAttribLocation { program: 3 }]);
    assert_eq!(dev.blobs(), &vec![text("pos")]);
    dev.take();

    let build = ask(build.resume(&mut dev, Reply::Location(8)));
    let mut expected = bind(5, 4, 8, 2);
    expected.push(GlCall::GetAttribLocation { program: 3 });
    assert_eq!(dev.calls(), &expected);
    assert_eq!(dev.blobs(), &vec![text("color")]);
    dev.take();

    let colored = match build.resume(&mut dev, Reply::Location(0)) {
        Step::Colored(colored) => colored,
        _ => panic!("no colored program"),
    };
    assert_eq!(dev.calls(), &bind(6, 4, 0, 4));
    assert_eq!(colored.program(), 3);
    assert_eq!(colored.pending(), 0);
}

#[test]
fn the_textured_program_is_built_step_by_step() {
    let mut dev = Device::new();
    let build = ask(Textured::new(&mut dev, Glsl::V1_20));
    assert_eq!(dev.calls(), &compile(1, gl::VERTEX_SHADER));
    assert_eq!(dev.blobs(), &vec![source(shaders_graphics2d::textured::VERTEX_GLSL_120)]);
    dev.take();

    let build = ask(build.resume(&mut dev, Reply::Status(true)));
    assert_eq!(dev.calls(), &compile(2, gl::FRAGMENT_SHADER));
    assert_eq!(dev.blobs(), &vec![source(shaders_graphics2d::textured::FRAGMENT_GLSL_120)]);
    dev.take();

    let build = ask(build.resume(&mut dev, Reply::Status(true)));
    assert_eq!(dev.calls(), &link(3, 1, 2, 4));
    dev.take();

    let build = ask(build.resume(&mut dev, Reply::Status(true)));
    assert_eq!(dev.calls(), &vec![GlCall::GetAttribLocation { program: 3 }]);
    assert_eq!(dev.blobs(), &vec![text("pos")]);
    dev.take();

    let build = ask(build.resume(&mut dev, Reply::Location(0)));
    let mut expected = bind(5, 4, 0, 2);
    expected.push(GlCall::GetUniformLocation { program: 3 });
    assert_eq!(dev.calls(), &expected);
    assert_eq!(dev.blobs(), &vec![text("color")]);
    dev.take();

    let build = ask(build.resume(&mut dev, Reply::Location(3)));
    assert_eq!(dev.calls(), &vec![GlCall::GetAttribLocation { program: 3 }]);
    assert_eq!(dev.blobs(), &vec![text("uv")]);
    dev.take();

    let textured = match build.resume(&mut dev, Reply::Location(1)) {
        Step::Textured(textured) => textured,
        _ => panic!("no textured program"),
    };
    assert_eq!(dev.calls(), &bind(6, 4, 1, 2));
    assert_eq!(textured.program(), 3);
    assert_eq!(textured.pending(), 0);
}

#[test]
fn the_sources_that_come_along_are_chosen_by_version() {
    for (glsl, _, _, _) in VERSIONS {
        let mut dev = Device::new();
        let step = Colored::new(&mut dev, glsl);
        let mut dev2 = Device::new();
        let step2 = Textured::new(&mut dev2, glsl);
        match glsl {
            Glsl::V1_10 => {
                assert_eq!(
                    failed(step),
                    ConstructionError::NoCompatibleShader(ShaderStage::Vertex)
                );
                assert_eq!(
                    failed(step2),
                    ConstructionError::NoCompatibleShader(ShaderStage::Vertex)
                );
                assert!(dev.calls().is_empty());
            }
            Glsl::V1_20 | Glsl::V1_30 | Glsl::V1_40 => {
                assert_eq!(dev.blobs(), &vec![source(shaders_graphics2d::colored::VERTEX_GLSL_120)]);
                assert_eq!(
                    dev2.blobs(),
                    &vec![source(shaders_graphics2d::textured::VERTEX_GLSL_120)]
                );
                ask(step).resume(&mut dev, Reply::Status(true));
                assert_eq!(
                    dev.blobs()[1],
                    source(shaders_graphics2d::colored::FRAGMENT_GLSL_120)
                );
            }
            _ => {
                assert_eq!(
                    dev.blobs(),
                    &vec![source(shaders_graphics2d::colored::VERTEX_GLSL_150_CORE)]
                );
                assert_eq!(
                    dev2.blobs(),
                    &vec![source(shaders_graphics2d::textured::VERTEX_GLSL_150_CORE)]
                );
                ask(step2).resume(&mut dev2, Reply::Status(true));
                assert_eq!(
                    dev2.blobs()[1],
                    source(shaders_graphics2d::textured::FRAGMENT_GLSL_150_CORE)
                );
            }
        }
    }
}

#[test]
fn custom_sources_are_picked_as_the_picker_picks() {
    let mut vertex_shaders = Shaders::new();
    vertex_shaders.set(GLSL::V1_30, "old vertex").set(GLSL::V4_00, "new vertex");
    let mut fragment_shaders = Shaders::new();
    fragment_shaders.set(GLSL::V1_10, "old fragment").set(GLSL::V3_30, "new fragment");
    for (glsl, theirs, _, _) in VERSIONS {
        let mut dev = Device::new();
        let step = Colored::from_vs_fs(&mut dev, glsl, &vertex_shaders, &fragment_shaders);
        match vertex_shaders.get(theirs) {
            None => {
                assert_eq!(
                    failed(step),
                    ConstructionError::NoCompatibleShader(ShaderStage::Vertex)
                );
                assert!(dev.calls().is_empty());
            }
            Some(vertex) => {
                assert_eq!(dev.blobs(), &vec![text(vertex)]);
                let step = ask(step).resume(&mut dev, Reply::Status(true));
                match fragment_shaders.get(theirs) {
                    None => assert_eq!(
                        failed(step),
                        ConstructionError::NoCompatibleShader(ShaderStage::Fragment)
                    ),
                    Some(fragment) => assert_eq!(dev.blobs()[1], text(fragment)),
                }
            }
        }
    }
    // None of the old sources serves a version from 1.50 on.
    let mut dev = Device::new();
    let step = Textured::from_vs_fs(&mut dev, Glsl::V1_50, &vertex_shaders, &fragment_shaders);
    assert_eq!(failed(step), ConstructionError::NoCompatibleShader(ShaderStage::Vertex));
    let mut dev = Device::new();
    let step = Textured::from_vs_fs(&mut dev, Glsl::V4_50, &vertex_shaders, &fragment_shaders);
    assert_eq!(dev.blobs(), &vec![text("new vertex")]);
    ask(step).resume(&mut dev, Reply::Status(true));
    assert_eq!(dev.blobs()[1], text("new fragment"));
}

#[test]
fn a_build_begins_with_the_vertex_shader() {
    let mut dev = Device::new();
    gl::GenTextures(&mut dev);
    dev.take();
    let build = ask(ProgramBuild::begin(&mut dev, false, Some("vs"), Some("fs")));
    assert_eq!(dev.calls(), &compile(2, gl::VERTEX_SHADER));
    assert_eq!(dev.blobs(), &vec![text("vs")]);
    ask(build.resume(&mut dev, Reply::Status(true)));
    assert_eq!(dev.blobs(), &vec![text("vs"), text("fs")]);

    let mut dev = Device::new();
    let step = ProgramBuild::begin(&mut dev, true, None, Some("fs"));
    assert_eq!(failed(step), ConstructionError::NoCompatibleShader(ShaderStage::Vertex));
    assert!(dev.calls().is_empty());

    let mut dev = Device::new();
    let build = ask(ProgramBuild::begin(&mut dev, true, Some("vs"), None));
    let step = build.resume(&mut dev, Reply::Status(true));
    assert_eq!(failed(step), ConstructionError::NoCompatibleShader(ShaderStage::Fragment));
    assert_eq!(dev.calls(), &compile(1, gl::VERTEX_SHADER));

    let mut dev = Device::new();
    let build = ask(ProgramBuild::begin(&mut dev, true, Some("vs"), Some("f\0s")));
    dev.take();
    let step = build.resume(&mut dev, Reply::Status(true));
    assert_eq!(
        failed(step),
        ConstructionError::InteriorNul { text: TextKind::ShaderSource, position: 1 }
    );
    assert_eq!(
        dev.calls(),
        &vec![GlCall::CreateShader { shader: 2, shader_type: gl::FRAGMENT_SHADER }]
    );
}

#[test]
fn a_vertex_shader_that_does_not_compile() {
    let mut dev = Device::new();
    let build = ask(Colored::new(&mut dev, Glsl::V1_50));
    dev.take();
    let build = ask(build.resume(&mut dev, Reply::Status(false)));
    assert_eq!(dev.calls(), &vec![GlCall::GetShaderInfoLog(1)]);
    let e = failed(build.resume(&mut dev, Reply::Log("0:1: syntax error".to_string())));
    assert_eq!(
        e,
        ConstructionError::ShaderCompile {
            stage: ShaderStage::Vertex,
            log: "0:1: syntax error".to_string()
        }
    );
}

#[test]
fn a_fragment_shader_that_does_not_compile() {
    let mut dev = Device::new();
    let build = ask(Textured::new(&mut dev, Glsl::V1_50));
    let build = ask(build.resume(&mut dev, Reply::Status(true)));
    dev.take();
    let build = ask(build.resume(&mut dev, Reply::Status(false)));
    assert_eq!(dev.calls(), &vec![GlCall::GetShaderInfoLog(2)]);
    let e = failed(build.resume(&mut dev, Reply::Log("bad".to_string())));
    assert_eq!(
        e,
        ConstructionError::ShaderCompile { stage: ShaderStage::Fragment, log: "bad".to_string() }
    );
}

#[test]
fn a_program_that_does_not_link() {
    let mut dev = Device::new();
    let build = ask(Colored::new(&mut dev, Glsl::V1_50));
    let build = ask(build.resume(&mut dev, Reply::Status(true)));
    let build = ask(build.resume(&mut dev, Reply::Status(true)));
    dev.take();
    let build = ask(build.resume(&mut dev, Reply::Status(false)));
    assert_eq!(dev.calls(), &vec![GlCall::GetProgramInfoLog(3)]);
    let e = failed(build.resume(&mut dev, Reply::Log("unresolved".to_string())));
    assert_eq!(e, ConstructionError::ProgramLink { log: "unresolved".to_string() });
}

#[test]
fn a_missing_attribute_or_uniform() {
    let after_link = |textured: bool| {
        let mut dev = Device::new();
        let step = if textured {
            Textured::new(&mut dev, Glsl::V1_50)
        } else {
            Colored::new(&mut dev, Glsl::V1_50)
        };
        let build = ask(step);
        let build = ask(build.resume(&mut dev, Reply::Status(true)));
        let build = ask(build.resume(&mut dev, Reply::Status(true)));
        let build = ask(build.resume(&mut dev, Reply::Status(true)));
        dev.take();
        (build, dev)
    };
    let missing = |name: &str| ConstructionError::AttributeNotFound { name: name.to_string() };

    let (build, mut dev) = after_link(false);
    assert_eq!(failed(build.resume(&mut dev, Reply::Location(-1))), missing("pos"));
    assert!(dev.calls().is_empty());

    let (build, mut dev) = after_link(false);
    let build = ask(build.resume(&mut dev, Reply::Location(0)));
    assert_eq!(failed(build.resume(&mut dev, Reply::Location(-1))), missing("color"));

    let (build, mut dev) = after_link(true);
    let build = ask(build.resume(&mut dev, Reply::Location(0)));
    assert_eq!(
        failed(build.resume(&mut dev, Reply::Location(-1))),
        ConstructionError::UniformNotFound { name: "color".to_string() }
    );

    let (build, mut dev) = after_link(true);
    let build = ask(build.resume(&mut dev, Reply::Location(0)));
    let build = ask(build.resume(&mut dev, Reply::Location(0)));
    assert_eq!(failed(build.resume(&mut dev, Reply::Location(-1))), missing("uv"));
}

#[test]
fn an_answer_of_the_wrong_kind_ends_the_build() {
    let mut dev = Device::new();
    let build = ask(Colored::new(&mut dev, Glsl::V1_50));
    dev.take();
    assert_eq!(
        failed(build.resume(&mut dev, Reply::Location(1))),
        ConstructionError::UnexpectedReply
    );
    assert!(dev.calls().is_empty());
}

#[test]
fn a_source_with_a_zero_byte_is_refused() {
    let mut vertex_shaders = Shaders::new();
    vertex_shaders.set(GLSL::V1_50, "void\0main");
    let fragment_shaders = Shaders::new();
    let mut dev = Device::new();
    let step = Colored::from_vs_fs(&mut dev, Glsl::V1_50, &vertex_shaders, &fragment_shaders);
    assert_eq!(
        failed(step),
        ConstructionError::InteriorNul { text: TextKind::ShaderSource, position: 4 }
    );
    assert_eq!(
        dev.calls(),
        &vec![GlCall::CreateShader { shader: 1, shader_type: gl::VERTEX_SHADER }]
    );
}

#[test]
fn the_renderer_is_built_from_both_programs() {
    let mut dev = Device::new();
    let mut step = GlGraphics::new(&mut dev, OpenGl::V3_2);
    let replies = [
        Reply::Status(true),
        Reply::Status(true),
        Reply::Status(true),
        Reply::Location(0),
        Reply::Location(1),
        Reply::Status(true),
        Reply::Status(true),
        Reply::Status(true),
        Reply::Location(0),
        Reply::Location(2),
    ];
    for reply in replies {
        step = match step {
            GraphicsStep::Ask(build) => build.resume(&mut dev, reply),
            _ => panic!("ended early"),
        };
    }
    let texts: Vec<&Blob> = dev.blobs().iter().collect();
    assert_eq!(texts.len(), 11);
    assert_eq!(texts[0], &source(shaders_graphics2d::colored::VERTEX_GLSL_150_CORE));
    assert_eq!(texts[5], &source(shaders_graphics2d::textured::VERTEX_GLSL_150_CORE));
    let g = match step {
        GraphicsStep::Ask(build) => match build.resume(&mut dev, Reply::Location(1)) {
            GraphicsStep::Ready(g) => g,
            _ => panic!("not ready"),
        },
        _ => panic!("ended early"),
    };
    assert_eq!(g.get_current_program(), None);
    assert_eq!(dev.names(), 12);
}

#[test]
fn the_renderer_is_not_built_for_a_version_without_sources() {
    let mut dev = Device::new();
    match GlGraphics::new(&mut dev, OpenGl::V2_0) {
        GraphicsStep::Failed(e) => {
            assert_eq!(e, ConstructionError::NoCompatibleShader(ShaderStage::Vertex))
        }
        _ => panic!("did not fail"),
    }
}

#[test]
fn a_failure_of_the_second_program_fails_the_renderer() {
    let mut dev = Device::new();
    let mut step = GlGraphics::new(&mut dev, OpenGl::V3_2);
    let replies = [
        Reply::Status(true),
        Reply::Status(true),
        Reply::Status(true),
        Reply::Location(0),
        Reply::Location(1),
        Reply::Status(false),
        Reply::Log("no".to_string()),
    ];
    for reply in replies {
        step = match step {
            GraphicsStep::Ask(build) => build.resume(&mut dev, reply),
            _ => panic!("ended early"),
        };
    }
    match step {
        GraphicsStep::Failed(e) => assert_eq!(
            e,
            ConstructionError::ShaderCompile { stage: ShaderStage::Vertex, log: "no".to_string() }
        ),
        _ => panic!("did not fail"),
    }
}

#[test]
fn no_program_without_names() {
    // Not even a name for the vertex shader.
    let mut dev = Device::starting_after(u32::MAX);
    assert_eq!(failed(Colored::new(&mut dev, Glsl::V1_50)), ConstructionError::OutOfNames);
    assert!(dev.calls().is_empty());

    // No name for the fragment shader.
    let mut dev = Device::starting_after(u32::MAX - 1);
    let build = ask(Colored::new(&mut dev, Glsl::V1_50));
    dev.take();
    assert_eq!(failed(build.resume(&mut dev, Reply::Status(true))), ConstructionError::OutOfNames);
    assert!(dev.calls().is_empty());

    // No name for the program.
    let mut dev = Device::starting_after(u32::MAX - 2);
    let build = ask(Colored::new(&mut dev, Glsl::V1_50));
    let build = ask(build.resume(&mut dev, Reply::Status(true)));
    dev.take();
    assert_eq!(failed(build.resume(&mut dev, Reply::Status(true))), ConstructionError::OutOfNames);
    assert!(dev.calls().is_empty());

    // No name for the vertex array.
    let mut dev = Device::starting_after(u32::MAX - 3);
    let build = ask(Colored::new(&mut dev, Glsl::V1_50));
    let build = ask(build.resume(&mut dev, Reply::Status(true)));
    dev.take();
    assert_eq!(failed(build.resume(&mut dev, Reply::Status(true))), ConstructionError::OutOfNames);
    assert_eq!(
        dev.calls(),
        &vec![
            GlCall::CreateProgram(u32::MAX),
            GlCall::AttachShader { program: u32::MAX, shader: u32::MAX - 2 },
            GlCall::AttachShader { program: u32::MAX, shader: u32::MAX - 1 },
            GlCall::BindFragDataLocation { program: u32::MAX, color: 0 },
        ]
    );

    // No name for the buffer of the first attribute.
    let mut dev = Device::starting_after(u32::MAX - 4);
    let build = ask(Textured::new(&mut dev, Glsl::V1_50));
    let build = ask(build.resume(&mut dev, Reply::Status(true)));
    let build = ask(build.resume(&mut dev, Reply::Status(true)));
    let build = ask(build.resume(&mut dev, Reply::Status(true)));
    dev.take();
    assert_eq!(failed(build.resume(&mut dev, Reply::Location(0))), ConstructionError::OutOfNames);
    assert!(dev.calls().is_empty());
}
