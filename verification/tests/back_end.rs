use opengl_graphics::back_end::{GlGraphics, BUFFER_SIZE, CAPACITY, CHUNKS};
use opengl_graphics::draw_state::{Blend, DrawState, Stencil, Viewport};
use opengl_graphics::gl;
use opengl_graphics::gl::{Blob, Device, GlCall, Reply};
use opengl_graphics::glsl::OpenGl;
use opengl_graphics::program::GraphicsStep;
use opengl_graphics::texture::Texture;

// The names that a fresh device hands out while the renderer is built.
const COLORED_PROGRAM: u32 = 3;
const COLORED_VAO: u32 = 4;
const COLORED_POS_BUFFER: u32 = 5;
const COLORED_COLOR_BUFFER: u32 = 6;
const TEXTURED_PROGRAM: u32 = 9;
const TEXTURED_VAO: u32 = 10;
const TEXTURED_POS_BUFFER: u32 = 11;
const TEXTURED_UV_BUFFER: u32 = 12;
// The locations that the device is made to answer with.
const POS: i32 = 0;
const COLOR: i32 = 1;
const UV: i32 = 2;
const COLOR_UNIFORM: i32 = 5;

fn renderer() -> (GlGraphics, Device) {
    let mut dev = Device::new();
    let replies = vec![
        Reply::Status(true),
        Reply::Status(true),
        Reply::Status(true),
        Reply::Location(POS),
        Reply::Location(COLOR),
        Reply::Status(true),
        Reply::Status(true),
        Reply::Status(true),
        Reply::Location(POS),
        Reply::Location(COLOR_UNIFORM),
        Reply::Location(UV),
    ];
    let mut step = GlGraphics::new(&mut dev, OpenGl::V3_2);
    for reply in replies {
        step = match step {
            GraphicsStep::Ask(build) => build.resume(&mut dev, reply),
            _ => panic!("the build ended early"),
        };
    }
    match step {
        GraphicsStep::Ready(g) => {
            dev.take();
            (g, dev)
        }
        _ => panic!("the build did not end"),
    }
}

fn bits2(v: [f32; 2]) -> [u32; 2] {
    [v[0].to_bits(), v[1].to_bits()]
}

fn bits4(v: [f32; 4]) -> [u32; 4] {
    [v[0].to_bits(), v[1].to_bits(), v[2].to_bits(), v[3].to_bits()]
}

fn quad() -> Vec<[u32; 2]> {
    [[0.0, 0.0], [100.0, 0.0], [0.0, 100.0], [100.0, 0.0], [100.0, 100.0], [0.0, 100.0]]
        .iter()
        .map(|v| bits2(*v))
        .collect()
}

fn viewport() -> Viewport {
    Viewport { rect: [0, 0, 640, 480], draw_size: [640, 480] }
}

fn upload(location: i32, buffer: u32) -> Vec<GlCall> {
    vec![
        GlCall::EnableVertexAttribArray(location as u32),
        GlCall::BindBuffer { target: gl::ARRAY_BUFFER, buffer },
        GlCall::BufferData { target: gl::ARRAY_BUFFER, usage: gl::DYNAMIC_DRAW },
    ]
}

fn colored_flush(count: i32) -> Vec<GlCall> {
    let mut calls = vec![GlCall::BindVertexArray(COLORED_VAO), GlCall::Disable(gl::CULL_FACE)];
    calls.extend(upload(COLOR, COLORED_COLOR_BUFFER));
    calls.extend(upload(POS, COLORED_POS_BUFFER));
    calls.push(GlCall::DrawArrays { mode: gl::TRIANGLES, first: 0, count });
    calls.push(GlCall::BindVertexArray(0));
    calls
}

fn textured_flush(texture: u32, color: [u32; 4], count: i32) -> Vec<GlCall> {
    let mut calls = vec![
        GlCall::BindVertexArray(TEXTURED_VAO),
        GlCall::BindTexture { target: gl::TEXTURE_2D, texture },
        GlCall::Uniform4f {
            location: COLOR_UNIFORM,
            x: color[0],
            y: color[1],
            z: color[2],
            w: color[3],
        },
        GlCall::Disable(gl::CULL_FACE),
    ];
    calls.extend(upload(POS, TEXTURED_POS_BUFFER));
    calls.extend(upload(UV, TEXTURED_UV_BUFFER));
    calls.push(GlCall::DrawArrays { mode: gl::TRIANGLES, first: 0, count });
    calls.push(GlCall::BindVertexArray(0));
    calls
}

fn all_off() -> Vec<GlCall> {
    vec![
        GlCall::Disable(gl::SCISSOR_TEST),
        GlCall::Disable(gl::STENCIL_TEST),
        GlCall::Disable(gl::BLEND),
    ]
}

fn draws(calls: &[GlCall]) -> Vec<i32> {
    calls
        .iter()
        .filter_map(|c| match c {
            GlCall::DrawArrays { count, .. } => Some(*count),
            _ => None,
        })
        .collect()
}

#[test]
fn a_batch_holds_a_hundred_chunks() {
    assert_eq!(BUFFER_SIZE, graphics::BACK_END_MAX_VERTEX_COUNT);
    assert_eq!(CHUNKS, 100);
    assert_eq!(CAPACITY, 102_300);
}

#[test]
fn a_frame_with_one_quad() {
    let (mut g, mut dev) = renderer();
    let red = bits4([1.0, 0.0, 0.0, 1.0]);
    g.draw_begin(&mut dev, viewport());
    g.tri_list(&mut dev, &DrawState::default(), &red, &vec![quad()]);
    let mut expected = vec![
        GlCall::Viewport { x: 0, y: 0, width: 640, height: 480 },
        GlCall::Enable(gl::FRAMEBUFFER_SRGB),
        GlCall::UseProgram(COLORED_PROGRAM),
    ];
    expected.extend(all_off());
    assert_eq!(dev.calls(), &expected);
    assert!(dev.blobs().is_empty());

    g.draw_end(&mut dev);
    expected.extend(colored_flush(6));
    assert_eq!(dev.calls(), &expected);
    assert_eq!(draws(dev.calls()), vec![6]);
    assert_eq!(dev.blobs(), &vec![Blob::Vec4(vec![red; 6]), Blob::Vec2(quad())]);
}

#[test]
fn an_empty_frame_draws_nothing() {
    let (mut g, mut dev) = renderer();
    g.draw_begin(&mut dev, viewport());
    g.draw_end(&mut dev);
    assert_eq!(
        dev.calls(),
        &vec![
            GlCall::Viewport { x: 0, y: 0, width: 640, height: 480 },
            GlCall::Enable(gl::FRAMEBUFFER_SRGB),
        ]
    );
}

#[test]
fn a_new_frame_forgets_program_and_draw_state() {
    let (mut g, mut dev) = renderer();
    let white = bits4([1.0; 4]);
    g.draw_begin(&mut dev, viewport());
    g.tri_list(&mut dev, &DrawState::default(), &white, &vec![quad()]);
    g.draw_end(&mut dev);
    assert_eq!(g.get_current_program(), Some(COLORED_PROGRAM));
    dev.take();

    g.draw_begin(&mut dev, viewport());
    assert_eq!(g.get_current_program(), None);
    g.tri_list(&mut dev, &DrawState::default(), &white, &vec![quad()]);
    let mut expected = vec![
        GlCall::Viewport { x: 0, y: 0, width: 640, height: 480 },
        GlCall::Enable(gl::FRAMEBUFFER_SRGB),
        GlCall::UseProgram(COLORED_PROGRAM),
    ];
    expected.extend(all_off());
    assert_eq!(dev.calls(), &expected);
}

#[test]
fn the_same_state_is_not_set_again() {
    let (mut g, mut dev) = renderer();
    let white = bits4([1.0; 4]);
    g.draw_begin(&mut dev, viewport());
    g.tri_list(&mut dev, &DrawState::default(), &white, &vec![quad()]);
    dev.take();
    g.tri_list(&mut dev, &DrawState::default(), &white, &vec![quad(), quad()]);
    assert!(dev.calls().is_empty());
    g.draw_end(&mut dev);
    assert_eq!(draws(dev.calls()), vec![18]);
}

#[test]
fn a_change_of_state_draws_what_waits_under_the_old_state() {
    let (mut g, mut dev) = renderer();
    let white = bits4([1.0; 4]);
    let clipped = DrawState { scissor: Some([100, 100, 100, 100]), ..DrawState::default() };
    g.draw_begin(&mut dev, viewport());
    g.tri_list(&mut dev, &DrawState::default(), &white, &vec![quad()]);
    dev.take();
    g.tri_list(&mut dev, &clipped, &white, &vec![quad()]);
    let mut expected = colored_flush(6);
    expected.push(GlCall::Enable(gl::SCISSOR_TEST));
    expected.push(GlCall::Scissor { x: 100, y: 280, width: 100, height: 100 });
    assert_eq!(dev.calls(), &expected);
}

#[test]
fn one_vertex_too_many_takes_two_draws() {
    let (mut g, mut dev) = renderer();
    let red = bits4([1.0, 0.0, 0.0, 1.0]);
    let state = DrawState { blend: Some(Blend::Alpha), ..DrawState::default() };
    let vertex = |i: usize| [i as u32, 7];
    let mut chunks: Vec<Vec<[u32; 2]>> = Vec::new();
    for c in 0..CHUNKS {
        chunks.push((0..BUFFER_SIZE).map(|i| vertex(c * BUFFER_SIZE + i)).collect());
    }
    chunks.push(vec![vertex(CAPACITY)]);
    let all: Vec<[u32; 2]> = (0..CAPACITY + 1).map(vertex).collect();

    g.draw_begin(&mut dev, viewport());
    g.tri_list(&mut dev, &state, &red, &chunks);
    assert_eq!(draws(dev.calls()), vec![CAPACITY as i32]);
    g.draw_end(&mut dev);
    assert_eq!(draws(dev.calls()), vec![CAPACITY as i32, 1]);
    assert_eq!(
        dev.blobs(),
        &vec![
            Blob::Vec4(vec![red; CAPACITY]),
            Blob::Vec2(all[..CAPACITY].to_vec()),
            Blob::Vec4(vec![red; 1]),
            Blob::Vec2(all[CAPACITY..].to_vec()),
        ]
    );

    // The same vertices in two calls under the same state.
    let (mut g2, mut dev2) = renderer();
    g2.draw_begin(&mut dev2, viewport());
    g2.tri_list(&mut dev2, &state, &red, &chunks[..60].to_vec());
    g2.tri_list(&mut dev2, &state, &red, &chunks[60..].to_vec());
    g2.draw_end(&mut dev2);
    assert_eq!(dev2.calls(), dev.calls());
    assert_eq!(dev2.blobs(), dev.blobs());
}

#[test]
fn a_full_batch_is_not_drawn_before_more_arrives() {
    let (mut g, mut dev) = renderer();
    let white = bits4([1.0; 4]);
    let chunks: Vec<Vec<[u32; 2]>> = (0..CHUNKS).map(|_| vec![[0, 0]; BUFFER_SIZE]).collect();
    g.draw_begin(&mut dev, viewport());
    g.tri_list(&mut dev, &DrawState::default(), &white, &chunks);
    assert_eq!(draws(dev.calls()), Vec::<i32>::new());
    g.tri_list_chunk(&mut dev, &white, &[]);
    assert_eq!(draws(dev.calls()), Vec::<i32>::new());
    g.draw_end(&mut dev);
    assert_eq!(draws(dev.calls()), vec![CAPACITY as i32]);
}

#[test]
fn a_change_of_texture_draws_what_waits() {
    let (mut g, mut dev) = renderer();
    let white = bits4([1.0; 4]);
    let first = Texture::new(21, 8, 8);
    let second = Texture::new(22, 8, 8);
    let state = DrawState::default();
    let uvs = quad();
    g.draw_begin(&mut dev, viewport());
    g.tri_list_uv(&mut dev, &state, &white, &first, &vec![(quad(), uvs.clone())]);
    let mut expected = vec![
        GlCall::Viewport { x: 0, y: 0, width: 640, height: 480 },
        GlCall::Enable(gl::FRAMEBUFFER_SRGB),
    ];
    expected.extend(all_off());
    assert_eq!(dev.calls(), &expected);

    g.tri_list_uv(&mut dev, &state, &white, &second, &vec![(quad(), uvs.clone())]);
    expected.push(GlCall::UseProgram(TEXTURED_PROGRAM));
    expected.extend(textured_flush(21, white, 6));
    assert_eq!(dev.calls(), &expected);

    g.draw_end(&mut dev);
    expected.extend(textured_flush(22, white, 6));
    assert_eq!(dev.calls(), &expected);
    assert_eq!(draws(dev.calls()), vec![6, 6]);
    assert_eq!(
        dev.blobs(),
        &vec![Blob::Vec2(quad()), Blob::Vec2(uvs.clone()), Blob::Vec2(quad()), Blob::Vec2(uvs)]
    );
}

#[test]
fn the_same_texture_and_color_share_a_draw() {
    let (mut g, mut dev) = renderer();
    let white = bits4([1.0; 4]);
    let texture = Texture::new(21, 8, 8);
    let state = DrawState::default();
    g.draw_begin(&mut dev, viewport());
    g.tri_list_uv(&mut dev, &state, &white, &texture, &vec![(quad(), quad())]);
    g.tri_list_uv(&mut dev, &state, &white, &texture, &vec![(quad(), quad())]);
    g.draw_end(&mut dev);
    assert_eq!(draws(dev.calls()), vec![12]);
}

#[test]
fn a_change_of_color_draws_what_waits() {
    let (mut g, mut dev) = renderer();
    let texture = Texture::new(21, 8, 8);
    let state = DrawState::default();
    g.draw_begin(&mut dev, viewport());
    g.tri_list_uv(&mut dev, &state, &bits4([1.0; 4]), &texture, &vec![(quad(), quad())]);
    g.tri_list_uv(&mut dev, &state, &bits4([0.5; 4]), &texture, &vec![(quad(), quad())]);
    g.draw_end(&mut dev);
    assert_eq!(draws(dev.calls()), vec![6, 6]);
    let uniforms: Vec<u32> = dev
        .calls()
        .iter()
        .filter_map(|c| match c {
            GlCall::Uniform4f { x, .. } => Some(*x),
            _ => None,
        })
        .collect();
    assert_eq!(uniforms, vec![1.0f32.to_bits(), 0.5f32.to_bits()]);
}

#[test]
fn switching_between_the_batches_draws_the_other_one() {
    let (mut g, mut dev) = renderer();
    let white = bits4([1.0; 4]);
    let texture = Texture::new(21, 8, 8);
    let state = DrawState::default();
    g.draw_begin(&mut dev, viewport());
    g.tri_list(&mut dev, &state, &white, &vec![quad()]);
    dev.take();
    g.tri_list_uv(&mut dev, &state, &white, &texture, &vec![(quad()[..3].to_vec(), quad()[..3].to_vec())]);
    assert_eq!(dev.calls(), &colored_flush(6));
    dev.take();
    g.tri_list(&mut dev, &state, &white, &vec![quad()]);
    let mut expected = vec![GlCall::UseProgram(TEXTURED_PROGRAM)];
    expected.extend(textured_flush(21, white, 3));
    assert_eq!(dev.calls(), &expected);
    dev.take();
    g.draw_end(&mut dev);
    let mut expected = vec![GlCall::UseProgram(COLORED_PROGRAM)];
    expected.extend(colored_flush(6));
    assert_eq!(dev.calls(), &expected);
}

#[test]
fn textured_overflow_is_drawn_in_between() {
    let (mut g, mut dev) = renderer();
    let white = bits4([1.0; 4]);
    let texture = Texture::new(21, 8, 8);
    let full: Vec<(Vec<[u32; 2]>, Vec<[u32; 2]>)> =
        (0..CHUNKS).map(|_| (vec![[1, 1]; BUFFER_SIZE], vec![[2, 2]; BUFFER_SIZE])).collect();
    g.draw_begin(&mut dev, viewport());
    g.tri_list_uv(&mut dev, &DrawState::default(), &white, &texture, &full);
    g.tri_list_uv_chunk(&mut dev, &[[3, 3]; 3], &[[4, 4]; 3]);
    assert_eq!(draws(dev.calls()), vec![CAPACITY as i32]);
    g.draw_end(&mut dev);
    assert_eq!(draws(dev.calls()), vec![CAPACITY as i32, 3]);
    assert_eq!(dev.blobs()[2], Blob::Vec2(vec![[3, 3]; 3]));
    assert_eq!(dev.blobs()[3], Blob::Vec2(vec![[4, 4]; 3]));
}

#[test]
fn red_survives_the_way_to_the_device_and_back() {
    let original = [1.0f32, 0.0, 0.0, 1.0];
    let linear = graphics::color::gamma_srgb_to_linear(original);
    let (mut g, mut dev) = renderer();
    g.draw_begin(&mut dev, viewport());
    g.tri_list(&mut dev, &DrawState::default(), &bits4(linear), &vec![quad()]);
    g.draw_end(&mut dev);
    let sent = match &dev.blobs()[0] {
        Blob::Vec4(colors) => colors[0],
        other => panic!("no colors but {:?}", other),
    };
    let back = graphics::color::gamma_linear_to_srgb(sent.map(f32::from_bits));
    for channel in 0..4 {
        assert!((back[channel] - original[channel]).abs() <= f32::EPSILON);
    }
    assert_eq!(linear, original);
}

#[test]
fn clearing() {
    let (mut g, mut dev) = renderer();
    g.clear_color(&mut dev, [1, 2, 3, 4]);
    g.clear_stencil(&mut dev, 200);
    assert_eq!(
        dev.calls(),
        &vec![
            GlCall::ClearColor { red: 1, green: 2, blue: 3, alpha: 4 },
            GlCall::Clear(gl::COLOR_BUFFER_BIT | gl::DEPTH_BUFFER_BIT),
            GlCall::ClearStencil(200),
            GlCall::Clear(gl::STENCIL_BUFFER_BIT),
        ]
    );
}

#[test]
fn a_program_in_use_is_not_set_again() {
    let (mut g, mut dev) = renderer();
    assert_eq!(g.get_current_program(), None);
    g.use_program(&mut dev, 3);
    g.use_program(&mut dev, 3);
    g.use_program(&mut dev, 9);
    assert_eq!(g.get_current_program(), Some(9));
    g.clear_program();
    assert_eq!(g.get_current_program(), None);
    g.use_program(&mut dev, 9);
    assert_eq!(
        dev.calls(),
        &vec![GlCall::UseProgram(3), GlCall::UseProgram(9), GlCall::UseProgram(9)]
    );
}

#[test]
fn the_first_state_is_set_in_full_and_later_ones_by_their_difference() {
    let (mut g, mut dev) = renderer();
    let masked = DrawState { stencil: Some(Stencil::Inside(1)), ..DrawState::default() };
    g.use_draw_state(&mut dev, &DrawState::default());
    assert_eq!(dev.calls(), &all_off());
    dev.take();
    g.use_draw_state(&mut dev, &masked);
    assert_eq!(dev.calls().len(), 4);
    assert_eq!(dev.calls()[0], GlCall::Enable(gl::STENCIL_TEST));
    dev.take();
    g.clear_draw_state();
    g.use_draw_state(&mut dev, &DrawState::default());
    assert_eq!(dev.calls(), &all_off());
}

#[test]
fn all_textures_are_taken_to_have_alpha() {
    let (g, _) = renderer();
    assert!(g.has_texture_alpha(&Texture::new(1, 1, 1)));
}

#[test]
fn deleting_releases_every_object() {
    let (g, mut dev) = renderer();
    g.delete(&mut dev);
    assert_eq!(
        dev.calls(),
        &vec![
            GlCall::DeleteBuffer(COLORED_POS_BUFFER),
            GlCall::DeleteBuffer(COLORED_COLOR_BUFFER),
            GlCall::DeleteVertexArray(COLORED_VAO),
            GlCall::DeleteProgram(COLORED_PROGRAM),
            GlCall::DeleteShader(1),
            GlCall::DeleteShader(2),
            GlCall::DeleteBuffer(TEXTURED_POS_BUFFER),
            GlCall::DeleteBuffer(TEXTURED_UV_BUFFER),
            GlCall::DeleteVertexArray(TEXTURED_VAO),
            GlCall::DeleteProgram(TEXTURED_PROGRAM),
            GlCall::DeleteShader(7),
            GlCall::DeleteShader(8),
        ]
    );
}

#[test]
fn each_vertex_may_have_its_own_color() {
    let (mut g, mut dev) = renderer();
    let red = bits4([1.0, 0.0, 0.0, 1.0]);
    let blue = bits4([0.0, 0.0, 1.0, 1.0]);
    let colors = vec![red, blue, red, blue, red, blue];
    g.draw_begin(&mut dev, viewport());
    g.tri_list_begin(&mut dev, &DrawState::default());
    g.tri_list_c_chunk(&mut dev, &quad(), &colors);
    g.tri_list_chunk(&mut dev, &red, &quad()[..3]);
    g.draw_end(&mut dev);
    assert_eq!(draws(dev.calls()), vec![9]);
    let mut all_colors = colors.clone();
    all_colors.extend(vec![red; 3]);
    let mut all_positions = quad();
    all_positions.extend_from_slice(&quad()[..3]);
    assert_eq!(dev.blobs(), &vec![Blob::Vec4(all_colors), Blob::Vec2(all_positions)]);
}

#[test]
fn chunks_may_come_one_by_one() {
    let (mut g, mut dev) = renderer();
    let white = bits4([1.0; 4]);
    let texture = Texture::new(3, 1, 1);
    g.draw_begin(&mut dev, viewport());
    g.tri_list_uv_begin(&mut dev, &DrawState::default(), &white, &texture);
    g.tri_list_uv_chunk(&mut dev, &quad(), &quad());
    g.tri_list_uv_chunk(&mut dev, &quad()[..3], &quad()[3..]);
    g.draw_end(&mut dev);

    let (mut g2, mut dev2) = renderer();
    g2.draw_begin(&mut dev2, viewport());
    g2.tri_list_uv(
        &mut dev2,
        &DrawState::default(),
        &white,
        &texture,
        &vec![(quad(), quad()), (quad()[..3].to_vec(), quad()[3..].to_vec())],
    );
    g2.draw_end(&mut dev2);
    assert_eq!(dev.calls(), dev2.calls());
    assert_eq!(dev.blobs(), dev2.blobs());
    assert_eq!(draws(dev.calls()), vec![9]);
}

#[test]
fn a_scissor_box_out_of_range_matters_only_where_it_is_sent() {
    let (mut g, mut dev) = renderer();
    let far = DrawState { scissor: Some([0, 0, 0, u32::MAX]), ..DrawState::default() };
    assert!(!g.takes(&far));
    assert!(g.takes(&DrawState::default()));
    g.draw_begin(&mut dev, viewport());
    assert!(!g.takes(&far));
    g.use_draw_state(&mut dev, &DrawState::default());
    assert!(!g.takes(&far));
    assert!(g.takes(&DrawState { blend: Some(Blend::Add), ..DrawState::default() }));
    dev.take();
    // The state that is current takes no command.
    g.use_draw_state(&mut dev, &DrawState::default());
    assert!(dev.calls().is_empty());
}

#[test]
fn empty_chunks_do_not_draw_a_full_batch() {
    let (mut g, mut dev) = renderer();
    let white = bits4([1.0; 4]);
    let mut chunks: Vec<Vec<[u32; 2]>> = (0..CHUNKS).map(|_| vec![[0, 0]; BUFFER_SIZE]).collect();
    chunks.push(vec![]);
    chunks.push(vec![[1, 1]]);
    chunks.push(vec![]);
    chunks.push(vec![[2, 2], [3, 3]]);
    g.draw_begin(&mut dev, viewport());
    g.tri_list(&mut dev, &DrawState::default(), &white, &chunks);
    assert_eq!(draws(dev.calls()), vec![CAPACITY as i32]);
    g.draw_end(&mut dev);
    assert_eq!(draws(dev.calls()), vec![CAPACITY as i32, 3]);
    assert_eq!(dev.blobs()[3], Blob::Vec2(vec![[1, 1], [2, 2], [3, 3]]));
}

#[test]
fn the_device_is_given_the_same_however_the_vertices_are_cut() {
    let red = bits4([1.0, 0.0, 0.0, 1.0]);
    let state = DrawState::default();
    let vertices: Vec<[u32; 2]> = (0..CAPACITY as u32 + 1).map(|i| [i, i + 1]).collect();
    let positions = |dev: &Device| -> Vec<[u32; 2]> {
        dev.blobs()
            .iter()
            .flat_map(|b| match b {
                Blob::Vec2(v) => v.clone(),
                _ => vec![],
            })
            .collect()
    };
    let colors = |dev: &Device| -> usize {
        dev.blobs()
            .iter()
            .map(|b| match b {
                Blob::Vec4(v) => {
                    assert!(v.iter().all(|c| *c == red));
                    v.len()
                }
                _ => 0,
            })
            .sum()
    };

    let (mut g, mut dev) = renderer();
    g.draw_begin(&mut dev, viewport());
    let whole: Vec<Vec<[u32; 2]>> = vertices.chunks(BUFFER_SIZE).map(|c| c.to_vec()).collect();
    g.tri_list(&mut dev, &state, &red, &whole);
    g.draw_end(&mut dev);
    assert_eq!(positions(&dev), vertices);
    assert_eq!(colors(&dev), vertices.len());

    for cut in [0usize, 1, 700, CAPACITY - 1, CAPACITY, CAPACITY + 1] {
        let (mut g, mut dev) = renderer();
        g.draw_begin(&mut dev, viewport());
        let first: Vec<Vec<[u32; 2]>> = vertices[..cut].chunks(1000).map(|c| c.to_vec()).collect();
        let second: Vec<Vec<[u32; 2]>> = vertices[cut..].chunks(333).map(|c| c.to_vec()).collect();
        g.tri_list(&mut dev, &state, &red, &first);
        g.tri_list(&mut dev, &state, &red, &second);
        g.draw_end(&mut dev);
        assert_eq!(positions(&dev), vertices);
        assert_eq!(colors(&dev), vertices.len());
    }
}
