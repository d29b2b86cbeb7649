use opengl_graphics::back_end::GlGraphics;
use opengl_graphics::error::{ConstructionError, TextKind};
use opengl_graphics::gl;
use opengl_graphics::gl::{Blob, Device, GlCall, Reply};
use opengl_graphics::glsl::OpenGl;
use opengl_graphics::program::GraphicsStep;
use opengl_graphics::shader_uniforms::{
    SUFloat, SUInt, SUMat2x2, SUMat3x3, SUMat4x4, SUVec2, SUVec3, SUVec4, ShaderUniform,
};
use opengl_graphics::shader_utils::{
    attribute_at, attribute_location, compile_shader, compile_status, nul_position, uniform_at,
    uniform_location, DynamicAttribute,
};

fn renderer() -> (GlGraphics, Device) {
    let mut dev = Device::new();
    let replies = vec![
        Reply::Status(true),
        Reply::Status(true),
        Reply::Status(true),
        Reply::Location(0),
        Reply::Location(1),
        Reply::Status(true),
        Reply::Status(true),
        Reply::Status(true),
        Reply::Location(0),
        Reply::Location(1),
        Reply::Location(2),
    ];
    let mut step = GlGraphics::new(&mut dev, OpenGl::V3_2);
    for reply in replies {
        step = match step {
            GraphicsStep::Ask(build) => build.resume(&mut dev, reply),
            _ => panic!("the build ended early"),
        };
    }
    match step {
        GraphicsStep::Ready(g) => {
            dev.take();
            (g, dev)
        }
        _ => panic!("the build did not end"),
    }
}

#[test]
fn the_first_zero_byte_is_found() {
    assert_eq!(nul_position(""), None);
    assert_eq!(nul_position("pos"), None);
    assert_eq!(nul_position("\0"), Some(0));
    assert_eq!(nul_position("ab\0cd\0"), Some(2));
    assert_eq!(nul_position("\u{e9}\0"), Some(2));
}

#[test]
fn compiling_asks_for_the_status() {
    let mut dev = Device::new();
    let shader = compile_shader(&mut dev, gl::FRAGMENT_SHADER, "void main() {}").unwrap();
    assert_eq!(shader, 1);
    assert_eq!(
        dev.calls(),
        &vec![
            GlCall::CreateShader { shader: 1, shader_type: gl::FRAGMENT_SHADER },
            GlCall::ShaderSource(1),
            GlCall::CompileShader(1),
            GlCall::GetCompileStatus(1),
        ]
    );
    assert_eq!(dev.blobs(), &vec![Blob::Text("void main() {}".to_string())]);
    dev.take();
    assert!(compile_status(&mut dev, shader, true));
    assert!(dev.calls().is_empty());
    assert!(!compile_status(&mut dev, shader, false));
    assert_eq!(dev.calls(), &vec![GlCall::GetShaderInfoLog(1)]);
}

#[test]
fn a_source_with_a_zero_byte_is_not_compiled() {
    let mut dev = Device::new();
    let r = compile_shader(&mut dev, gl::VERTEX_SHADER, "a\0");
    assert_eq!(
        r,
        Err(ConstructionError::InteriorNul { text: TextKind::ShaderSource, position: 1 })
    );
    assert_eq!(
        dev.calls(),
        &vec![GlCall::CreateShader { shader: 1, shader_type: gl::VERTEX_SHADER }]
    );
    assert!(dev.blobs().is_empty());
}

#[test]
fn locations_are_asked_for_by_name() {
    let mut dev = Device::new();
    assert_eq!(attribute_location(&mut dev, 3, "pos"), Ok(()));
    assert_eq!(uniform_location(&mut dev, 4, "color"), Ok(()));
    assert_eq!(
        dev.calls(),
        &vec![
            GlCall::GetAttribLocation { program: 3 },
            GlCall::GetUniformLocation { program: 4 },
        ]
    );
    assert_eq!(
        dev.blobs(),
        &vec![Blob::Text("pos".to_string()), Blob::Text("color".to_string())]
    );
}

#[test]
fn a_name_with_a_zero_byte_is_not_asked_for() {
    let mut dev = Device::new();
    assert_eq!(
        attribute_location(&mut dev, 3, "p\0s"),
        Err(ConstructionError::InteriorNul { text: TextKind::AttributeName, position: 1 })
    );
    assert_eq!(
        uniform_location(&mut dev, 3, "\0"),
        Err(ConstructionError::InteriorNul { text: TextKind::UniformName, position: 0 })
    );
    assert!(dev.calls().is_empty());
}

#[test]
fn a_negative_location_means_not_found() {
    assert_eq!(attribute_at("pos", 0), Ok(0));
    assert_eq!(attribute_at("pos", 17), Ok(17));
    assert_eq!(
        attribute_at("pos", -1),
        Err(ConstructionError::AttributeNotFound { name: "pos".to_string() })
    );
    assert_eq!(uniform_at("color", 3), Ok(3));
    assert_eq!(
        uniform_at("color", -1),
        Err(ConstructionError::UniformNotFound { name: "color".to_string() })
    );
}

#[test]
fn attributes_differ_in_their_number_of_components() {
    let makers: [(fn(&mut Device, u32, &str, u32) -> Result<_, ConstructionError>, i32); 5] = [
        (DynamicAttribute::xyz, 3),
        (DynamicAttribute::xy, 2),
        (DynamicAttribute::rgb, 3),
        (DynamicAttribute::rgba, 4),
        (DynamicAttribute::uv, 2),
    ];
    for (make, size) in makers {
        let mut dev = Device::new();
        let query = make(&mut dev, 3, "name", 9).unwrap();
        assert_eq!(dev.calls(), &vec![GlCall::GetAttribLocation { program: 3 }]);
        assert_eq!(dev.blobs(), &vec![Blob::Text("name".to_string())]);
        dev.take();
        let attribute = query.resolve(&mut dev, 2).unwrap();
        assert_eq!(
            dev.calls(),
            &vec![
                GlCall::GenBuffer(1),
                GlCall::BindVertexArray(9),
                GlCall::BindBuffer { target: gl::ARRAY_BUFFER, buffer: 1 },
                GlCall::VertexAttribPointer {
                    index: 2,
                    size,
                    data_type: gl::FLOAT,
                    normalized: gl::FALSE,
                    stride: 0,
                    offset: 0,
                },
            ]
        );
        dev.take();
        attribute.set(&mut dev, Blob::Words(vec![1, 2, 3]));
        assert_eq!(
            dev.calls(),
            &vec![
                GlCall::EnableVertexAttribArray(2),
                GlCall::BindBuffer { target: gl::ARRAY_BUFFER, buffer: 1 },
                GlCall::BufferData { target: gl::ARRAY_BUFFER, usage: gl::DYNAMIC_DRAW },
            ]
        );
        assert_eq!(dev.blobs(), &vec![Blob::Words(vec![1, 2, 3])]);
        dev.take();
        attribute.delete(&mut dev);
        assert_eq!(dev.calls(), &vec![GlCall::DeleteBuffer(1)]);
    }
}

#[test]
fn an_attribute_that_is_not_found_gets_no_buffer() {
    let mut dev = Device::new();
    let query = DynamicAttribute::xy(&mut dev, 3, "pos", 9).unwrap();
    dev.take();
    let r = query.resolve(&mut dev, -1);
    assert_eq!(r.err(), Some(ConstructionError::AttributeNotFound { name: "pos".to_string() }));
    assert!(dev.calls().is_empty());
    assert_eq!(dev.names(), 0);
}

#[test]
fn a_uniform_is_asked_for_under_the_current_program() {
    let (mut g, mut dev) = renderer();
    assert!(!g.get_uniform(&mut dev, "color"));
    assert!(dev.calls().is_empty());
    g.use_program(&mut dev, 9);
    dev.take();
    assert!(!g.get_uniform(&mut dev, "co\0lor"));
    assert!(dev.calls().is_empty());
    assert!(g.get_uniform(&mut dev, "color"));
    assert_eq!(dev.calls(), &vec![GlCall::GetUniformLocation { program: 9 }]);
    assert_eq!(dev.blobs(), &vec![Blob::Text("color".to_string())]);
    assert!(ShaderUniform::<SUFloat>::at(-1).is_none());
    assert!(ShaderUniform::<SUFloat>::at(0).is_some());
}

#[test]
fn uniforms_are_set_under_the_current_program() {
    let (mut g, mut dev) = renderer();
    let float = ShaderUniform::<SUFloat>::at(1).unwrap();
    float.set(&g, &mut dev, 5);
    assert!(dev.calls().is_empty());

    g.use_program(&mut dev, 9);
    dev.take();
    float.set(&g, &mut dev, 5);
    ShaderUniform::<SUInt>::at(2).unwrap().set(&g, &mut dev, -4);
    ShaderUniform::<SUVec2>::at(3).unwrap().set(&g, &mut dev, &[1, 2]);
    ShaderUniform::<SUVec3>::at(4).unwrap().set(&g, &mut dev, &[1, 2, 3]);
    ShaderUniform::<SUVec4>::at(5).unwrap().set(&g, &mut dev, &[1, 2, 3, 4]);
    ShaderUniform::<SUMat2x2>::at(6).unwrap().set(&g, &mut dev, &[7; 4]);
    ShaderUniform::<SUMat3x3>::at(7).unwrap().set(&g, &mut dev, &[8; 9]);
    ShaderUniform::<SUMat4x4>::at(8).unwrap().set(&g, &mut dev, &[9; 16]);
    let matrix = |location| (9, location, 1, gl::FALSE);
    assert_eq!(
        dev.calls(),
        &vec![
            GlCall::ProgramUniform1f { program: 9, location: 1, value: 5 },
            GlCall::ProgramUniform1i { program: 9, location: 2, value: -4 },
            GlCall::ProgramUniform2f { program: 9, location: 3, x: 1, y: 2 },
            GlCall::ProgramUniform3f { program: 9, location: 4, x: 1, y: 2, z: 3 },
            GlCall::ProgramUniform4f { program: 9, location: 5, x: 1, y: 2, z: 3, w: 4 },
            GlCall::ProgramUniformMatrix2fv {
                program: matrix(6).0,
                location: matrix(6).1,
                count: matrix(6).2,
                transpose: matrix(6).3,
            },
            GlCall::ProgramUniformMatrix3fv { program: 9, location: 7, count: 1, transpose: 0 },
            GlCall::ProgramUniformMatrix4fv { program: 9, location: 8, count: 1, transpose: 0 },
        ]
    );
    assert_eq!(
        dev.blobs(),
        &vec![Blob::Words(vec![7; 4]), Blob::Words(vec![8; 9]), Blob::Words(vec![9; 16])]
    );
}
