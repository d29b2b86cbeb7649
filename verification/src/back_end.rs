//! The batching renderer.
//!
//! Triangles are not drawn as they arrive. They are gathered in one of two
//! batches, one for plain colored triangles and one for textured ones, and
//! a batch is handed to the device in a single draw call when the draw
//! state, the texture or the color changes, when the other batch is needed,
//! when the batch is full, or when the frame ends.

use vstd::prelude::*;
use vstd::slice::{slice_subrange, slice_to_vec};
use crate::draw_state::{bind_blend, bind_scissor, bind_state, bind_stencil};
use crate::draw_state::{same_scissor, scissor_fits, scissor_in_range};
use crate::draw_state::{state_calls, state_delta, DrawState, Viewport};
use crate::float_bits::{color_eq, same_color};
use crate::gl;
use crate::gl::{Blob, BlobView, Device, DeviceView, GLint, GLuint, GlCall};
use crate::shader_utils::{AttributeView, DynamicAttribute};
use crate::texture::Texture;

verus! {

/// The number of chunks to fill up before rendering.
pub const CHUNKS: usize = 100;

/// The largest number of vertices that the front end hands over at once.
pub const BUFFER_SIZE: usize = 1023;

/// The number of vertices that a batch can hold.
pub const CAPACITY: usize = BUFFER_SIZE * CHUNKS;

/// Overwrites `buffer` from position `at` on with `data`.
fn write_at<T: Copy>(buffer: &mut Vec<T>, at: usize, data: &[T])
    requires
        at + data@.len() <= old(buffer)@.len(),
    ensures
        final(buffer)@ == old(buffer)@.take(at as int) + data@ + old(buffer)@.skip(
            at + data@.len(),
        ),
{
    let n: usize = data.len();
    let len: usize = buffer.len();
    let mut i: usize = 0;
    while i < n
        invariant
            n == data@.len(),
            i <= n,
            at + n <= len,
            len == buffer@.len(),
            buffer@.len() == old(buffer)@.len(),
            buffer@ =~= old(buffer)@.take(at as int) + data@.take(i as int) + old(buffer)@.skip(
                at + i,
            ),
        decreases n - i,
    {
        buffer[at + i] = data[i];
        i = i + 1;
    }
}

/// Overwrites `n` entries of `buffer` from position `at` on with `value`.
fn fill_at<T: Copy>(buffer: &mut Vec<T>, at: usize, n: usize, value: T)
    requires
        at + n <= old(buffer)@.len(),
    ensures
        final(buffer)@ == old(buffer)@.take(at as int) + Seq::new(n as nat, |i: int| value)
            + old(buffer)@.skip(at + n),
{
    let len: usize = buffer.len();
    let mut i: usize = 0;
    while i < n
        invariant
            i <= n,
            at + n <= len,
            len == buffer@.len(),
            buffer@.len() == old(buffer)@.len(),
            buffer@ =~= old(buffer)@.take(at as int) + Seq::new(i as nat, |k: int| value)
                + old(buffer)@.skip(at + i),
        decreases n - i,
    {
        buffer[at + i] = value;
        i = i + 1;
    }
}

/// Describes how to render colored objects.
pub struct Colored {
    vao: GLuint,
    vertex_shader: GLuint,
    fragment_shader: GLuint,
    program: GLuint,
    pos: DynamicAttribute,
    color: DynamicAttribute,
    pos_buffer: Vec<[u32; 2]>,
    color_buffer: Vec<[u32; 4]>,
    offset: usize,
}

/// What a [`Colored`] holds: its device objects, and the vertices that
/// have been gathered and not yet drawn.
pub struct ColoredView {
    pub vao: GLuint,
    pub vertex_shader: GLuint,
    pub fragment_shader: GLuint,
    pub program: GLuint,
    pub pos: AttributeView,
    pub color: AttributeView,
    /// The positions that wait to be drawn.
    pub positions: Seq<[u32; 2]>,
    /// Their colors, one for each position.
    pub colors: Seq<[u32; 4]>,
}

impl ColoredView {
    /// The same batch with nothing waiting.
    pub open spec fn flushed(self) -> ColoredView {
        ColoredView { positions: Seq::empty(), colors: Seq::empty(), ..self }
    }

    /// The same batch with `vertices` added, all in `color`.
    pub open spec fn appended(self, color: [u32; 4], vertices: Seq<[u32; 2]>) -> ColoredView {
        ColoredView {
            positions: self.positions + vertices,
            colors: self.colors + Seq::new(vertices.len(), |i: int| color),
            ..self
        }
    }

    /// The same batch with `vertices` added, each in its own color.
    pub open spec fn appended_with(
        self,
        vertices: Seq<[u32; 2]>,
        colors: Seq<[u32; 4]>,
    ) -> ColoredView {
        ColoredView { positions: self.positions + vertices, colors: self.colors + colors, ..self }
    }

    /// The device after the batch has been drawn: the vertex array is
    /// bound, face culling switched off, colors and positions uploaded, and
    /// everything that waits drawn by one call.
    pub open spec fn flush(self, d: DeviceView) -> DeviceView {
        self.pos.upload(
            self.color.upload(
                d.followed_by(seq![GlCall::BindVertexArray(self.vao), GlCall::Disable(gl::CULL_FACE)]),
                BlobView::Vec4(self.colors),
            ),
            BlobView::Vec2(self.positions),
        ).followed_by(
            seq![
                GlCall::DrawArrays {
                    mode: gl::TRIANGLES,
                    first: 0,
                    count: self.positions.len() as i32,
                },
                GlCall::BindVertexArray(0),
            ],
        )
    }

    /// The commands that release the batch's device objects.
    pub open spec fn delete_calls(self) -> Seq<GlCall> {
        seq![
            GlCall::DeleteBuffer(self.pos.vbo),
            GlCall::DeleteBuffer(self.color.vbo),
            GlCall::DeleteVertexArray(self.vao),
            GlCall::DeleteProgram(self.program),
            GlCall::DeleteShader(self.vertex_shader),
            GlCall::DeleteShader(self.fragment_shader),
        ]
    }
}

impl View for Colored {
    type V = ColoredView;

    closed spec fn view(&self) -> ColoredView {
        ColoredView {
            vao: self.vao,
            vertex_shader: self.vertex_shader,
            fragment_shader: self.fragment_shader,
            program: self.program,
            pos: self.pos@,
            color: self.color@,
            positions: self.pos_buffer@.take(self.offset as int),
            colors: self.color_buffer@.take(self.offset as int),
        }
    }
}

impl Colored {
    /// The batch's buffers have their fixed size, and what waits fits.
    pub closed spec fn wf(&self) -> bool {
        &&& self.pos_buffer@.len() == CAPACITY
        &&& self.color_buffer@.len() == CAPACITY
        &&& self.offset <= CAPACITY
    }

    /// In a well-formed batch each waiting position has its color, and no
    /// more wait than the batch can hold.
    pub proof fn wf_bounds(&self)
        requires
            self.wf(),
        ensures
            self@.positions.len() == self@.colors.len(),
            self@.positions.len() <= CAPACITY,
    {
    }

    /// An empty batch around the given device objects.
    pub(crate) fn assemble(
        vao: GLuint,
        vertex_shader: GLuint,
        fragment_shader: GLuint,
        program: GLuint,
        pos: DynamicAttribute,
        color: DynamicAttribute,
    ) -> (batch: Colored)
        ensures
            batch.wf(),
            batch@ == (ColoredView {
                vao,
                vertex_shader,
                fragment_shader,
                program,
                pos: pos@,
                color: color@,
                positions: Seq::empty(),
                colors: Seq::empty(),
            }),
    {
        let zero2: [u32; 2] = [0, 0];
        let zero4: [u32; 4] = [0, 0, 0, 0];
        let batch = Colored {
            vao,
            vertex_shader,
            fragment_shader,
            program,
            pos,
            color,
            pos_buffer: vec![zero2; CAPACITY],
            color_buffer: vec![zero4; CAPACITY],
            offset: 0,
        };
        assert(batch@.positions =~= Seq::empty());
        assert(batch@.colors =~= Seq::empty());
        batch
    }

    /// The number of vertices that wait to be drawn.
    pub fn pending(&self) -> (n: usize)
        requires
            self.wf(),
        ensures
            n == self@.positions.len(),
    {
        self.offset
    }

    /// The name of the batch's program.
    pub fn program(&self) -> (program: GLuint)
        ensures
            program == self@.program,
    {
        self.program
    }

    fn flush(&mut self, dev: &mut Device)
        requires
            old(self).wf(),
        ensures
            final(self).wf(),
            final(self)@ == old(self)@.flushed(),
            final(dev)@ == old(self)@.flush(old(dev)@),
    {
        gl::BindVertexArray(dev, self.vao);
        // Render triangles whether they are facing
        // clockwise or counter clockwise.
        gl::Disable(dev, gl::CULL_FACE);
        let ghost d1 = dev@;
        assert(d1.calls =~= old(dev)@.followed_by(
            seq![GlCall::BindVertexArray(self.vao), GlCall::Disable(gl::CULL_FACE)],
        ).calls);
        let colors = slice_to_vec(slice_subrange(self.color_buffer.as_slice(), 0, self.offset));
        self.color.set(dev, Blob::Vec4(colors));
        let positions = slice_to_vec(slice_subrange(self.pos_buffer.as_slice(), 0, self.offset));
        self.pos.set(dev, Blob::Vec2(positions));
        let ghost d3 = dev@;
        gl::DrawArrays(dev, gl::TRIANGLES, 0, self.offset as i32);
        gl::BindVertexArray(dev, 0);
        assert(dev@.calls =~= d3.followed_by(
            seq![
                GlCall::DrawArrays {
                    mode: gl::TRIANGLES,
                    first: 0,
                    count: old(self)@.positions.len() as i32,
                },
                GlCall::BindVertexArray(0),
            ],
        ).calls);
        self.offset = 0;
        assert(self@.positions =~= Seq::empty());
        assert(self@.colors =~= Seq::empty());
    }

    fn append(&mut self, color: [u32; 4], vertices: &[[u32; 2]])
        requires
            old(self).wf(),
            old(self)@.positions.len() + vertices@.len() <= CAPACITY,
        ensures
            final(self).wf(),
            final(self)@ == old(self)@.appended(color, vertices@),
    {
        let items: usize = vertices.len();
        fill_at(&mut self.color_buffer, self.offset, items, color);
        write_at(&mut self.pos_buffer, self.offset, vertices);
        self.offset = self.offset + items;
        assert(self@.positions =~= old(self)@.positions + vertices@);
        assert(self@.colors =~= old(self)@.colors + Seq::new(vertices@.len(), |i: int| color));
    }

    fn append_with(&mut self, vertices: &[[u32; 2]], colors: &[[u32; 4]])
        requires
            old(self).wf(),
            colors@.len() == vertices@.len(),
            old(self)@.positions.len() + vertices@.len() <= CAPACITY,
        ensures
            final(self).wf(),
            final(self)@ == old(self)@.appended_with(vertices@, colors@),
    {
        let items: usize = vertices.len();
        write_at(&mut self.color_buffer, self.offset, colors);
        write_at(&mut self.pos_buffer, self.offset, vertices);
        self.offset = self.offset + items;
        assert(self@.positions =~= old(self)@.positions + vertices@);
        assert(self@.colors =~= old(self)@.colors + colors@);
    }

    /// Releases the batch's device objects: the two buffers, the vertex
    /// array, the program and the two shaders. What still waited is dropped.
    pub fn delete(self, dev: &mut Device)
        ensures
            final(dev)@ == old(dev)@.followed_by(self@.delete_calls()),
    {
        let Colored { vao, vertex_shader, fragment_shader, program, pos, color, .. } = self;
        pos.delete(dev);
        color.delete(dev);
        gl::DeleteVertexArrays(dev, vao);
        gl::DeleteProgram(dev, program);
        gl::DeleteShader(dev, vertex_shader);
        gl::DeleteShader(dev, fragment_shader);
        assert(dev@.calls =~= old(dev)@.calls + self@.delete_calls());
    }
}

/// The color of a textured batch that has not been given one: all zero.
pub open spec fn no_color() -> [u32; 4] {
    [0u32, 0u32, 0u32, 0u32]
}

/// Describes how to render textured objects.
pub struct Textured {
    vertex_shader: GLuint,
    fragment_shader: GLuint,
    program: GLuint,
    vao: GLuint,
    color: GLint,
    pos: DynamicAttribute,
    uv: DynamicAttribute,
    pos_buffer: Vec<[u32; 2]>,
    uv_buffer: Vec<[u32; 2]>,
    offset: usize,
    last_texture_id: GLuint,
    last_color: [u32; 4],
}

/// What a [`Textured`] holds: its device objects, the vertices that have
/// been gathered and not yet drawn, and the texture and color that they
/// are to be drawn with.
pub struct TexturedView {
    pub vao: GLuint,
    pub vertex_shader: GLuint,
    pub fragment_shader: GLuint,
    pub program: GLuint,
    /// The location of the color uniform.
    pub color: GLint,
    pub pos: AttributeView,
    pub uv: AttributeView,
    /// The positions that wait to be drawn.
    pub positions: Seq<[u32; 2]>,
    /// Their texture coordinates, one pair for each position.
    pub uvs: Seq<[u32; 2]>,
    pub last_texture_id: GLuint,
    pub last_color: [u32; 4],
}

impl TexturedView {
    /// The same batch with nothing waiting.
    pub open spec fn flushed(self) -> TexturedView {
        TexturedView { positions: Seq::empty(), uvs: Seq::empty(), ..self }
    }

    /// The same batch with `vertices` and their coordinates added.
    pub open spec fn appended(self, vertices: Seq<[u32; 2]>, uvs: Seq<[u32; 2]>) -> TexturedView {
        TexturedView { positions: self.positions + vertices, uvs: self.uvs + uvs, ..self }
    }

    /// The same batch, to be drawn with the given texture and color.
    pub open spec fn bound(self, texture: GLuint, color: [u32; 4]) -> TexturedView {
        TexturedView { last_texture_id: texture, last_color: color, ..self }
    }

    /// The device after the batch has been drawn: the vertex array and the
    /// texture are bound, the color uniform set, face culling switched off,
    /// positions and coordinates uploaded, and everything that waits drawn
    /// by one call.
    pub open spec fn flush(self, d: DeviceView) -> DeviceView {
        self.uv.upload(
            self.pos.upload(
                d.followed_by(
                    seq![
                        GlCall::BindVertexArray(self.vao),
                        GlCall::BindTexture { target: gl::TEXTURE_2D, texture: self.last_texture_id },
                        GlCall::Uniform4f {
                            location: self.color,
                            x: self.last_color[0],
                            y: self.last_color[1],
                            z: self.last_color[2],
                            w: self.last_color[3],
                        },
                        GlCall::Disable(gl::CULL_FACE),
                    ],
                ),
                BlobView::Vec2(self.positions),
            ),
            BlobView::Vec2(self.uvs),
        ).followed_by(
            seq![
                GlCall::DrawArrays {
                    mode: gl::TRIANGLES,
                    first: 0,
                    count: self.positions.len() as i32,
                },
                GlCall::BindVertexArray(0),
            ],
        )
    }

    /// The commands that release the batch's device objects.
    pub open spec fn delete_calls(self) -> Seq<GlCall> {
        seq![
            GlCall::DeleteBuffer(self.pos.vbo),
            GlCall::DeleteBuffer(self.uv.vbo),
            GlCall::DeleteVertexArray(self.vao),
            GlCall::DeleteProgram(self.program),
            GlCall::DeleteShader(self.vertex_shader),
            GlCall::DeleteShader(self.fragment_shader),
        ]
    }
}

impl View for Textured {
    type V = TexturedView;

    closed spec fn view(&self) -> TexturedView {
        TexturedView {
            vao: self.vao,
            vertex_shader: self.vertex_shader,
            fragment_shader: self.fragment_shader,
            program: self.program,
            color: self.color,
            pos: self.pos@,
            uv: self.uv@,
            positions: self.pos_buffer@.take(self.offset as int),
            uvs: self.uv_buffer@.take(self.offset as int),
            last_texture_id: self.last_texture_id,
            last_color: self.last_color,
        }
    }
}

impl Textured {
    /// The batch's buffers have their fixed size, and what waits fits.
    pub closed spec fn wf(&self) -> bool {
        &&& self.pos_buffer@.len() == CAPACITY
        &&& self.uv_buffer@.len() == CAPACITY
        &&& self.offset <= CAPACITY
    }

    /// In a well-formed batch each waiting position has its coordinates,
    /// and no more wait than the batch can hold.
    pub proof fn wf_bounds(&self)
        requires
            self.wf(),
        ensures
            self@.positions.len() == self@.uvs.len(),
            self@.positions.len() <= CAPACITY,
    {
    }

    /// An empty batch around the given device objects. No texture is bound
    /// yet, and the color is all zero.
    pub(crate) fn assemble(
        vao: GLuint,
        vertex_shader: GLuint,
        fragment_shader: GLuint,
        program: GLuint,
        pos: DynamicAttribute,
        color: GLint,
        uv: DynamicAttribute,
    ) -> (batch: Textured)
        ensures
            batch.wf(),
            batch@ == (TexturedView {
                vao,
                vertex_shader,
                fragment_shader,
                program,
                color,
                pos: pos@,
                uv: uv@,
                positions: Seq::empty(),
                uvs: Seq::empty(),
                last_texture_id: 0,
                last_color: no_color(),
            }),
    {
        let zero2: [u32; 2] = [0, 0];
        let zero4: [u32; 4] = [0, 0, 0, 0];
        let batch = Textured {
            vao,
            vertex_shader,
            fragment_shader,
            program,
            pos,
            color,
            uv,
            pos_buffer: vec![zero2; CAPACITY],
            uv_buffer: vec![zero2; CAPACITY],
            offset: 0,
            last_texture_id: 0,
            last_color: zero4,
        };
        assert(batch@.positions =~= Seq::empty());
        assert(batch@.uvs =~= Seq::empty());
        batch
    }

    /// The number of vertices that wait to be drawn.
    pub fn pending(&self) -> (n: usize)
        requires
            self.wf(),
        ensures
            n == self@.positions.len(),
    {
        self.offset
    }

    /// The name of the batch's program.
    pub fn program(&self) -> (program: GLuint)
        ensures
            program == self@.program,
    {
        self.program
    }

    fn flush(&mut self, dev: &mut Device)
        requires
            old(self).wf(),
        ensures
            final(self).wf(),
            final(self)@ == old(self)@.flushed(),
            final(dev)@ == old(self)@.flush(old(dev)@),
    {
        let texture_id: GLuint = self.last_texture_id;
        let color = self.last_color;
        gl::BindVertexArray(dev, self.vao);
        gl::BindTexture(dev, gl::TEXTURE_2D, texture_id);
        gl::Uniform4f(dev, self.color, color[0], color[1], color[2], color[3]);
        // Render triangles whether they are facing
        // clockwise or counter clockwise.
        gl::Disable(dev, gl::CULL_FACE);
        assert(dev@.calls =~= old(dev)@.followed_by(
            seq![
                GlCall::BindVertexArray(self.vao),
                GlCall::BindTexture { target: gl::TEXTURE_2D, texture: self.last_texture_id },
                GlCall::Uniform4f {
                    location: self.color,
                    x: self.last_color[0],
                    y: self.last_color[1],
                    z: self.last_color[2],
                    w: self.last_color[3],
                },
                GlCall::Disable(gl::CULL_FACE),
            ],
        ).calls);
        let positions = slice_to_vec(slice_subrange(self.pos_buffer.as_slice(), 0, self.offset));
        self.pos.set(dev, Blob::Vec2(positions));
        let uvs = slice_to_vec(slice_subrange(self.uv_buffer.as_slice(), 0, self.offset));
        self.uv.set(dev, Blob::Vec2(uvs));
        let ghost d3 = dev@;
        gl::DrawArrays(dev, gl::TRIANGLES, 0, self.offset as i32);
        gl::BindVertexArray(dev, 0);
        assert(dev@.calls =~= d3.followed_by(
            seq![
                GlCall::DrawArrays {
                    mode: gl::TRIANGLES,
                    first: 0,
                    count: old(self)@.positions.len() as i32,
                },
                GlCall::BindVertexArray(0),
            ],
        ).calls);
        self.offset = 0;
        assert(self@.positions =~= Seq::empty());
        assert(self@.uvs =~= Seq::empty());
    }

    fn append(&mut self, vertices: &[[u32; 2]], texture_coords: &[[u32; 2]])
        requires
            old(self).wf(),
            texture_coords@.len() == vertices@.len(),
            old(self)@.positions.len() + vertices@.len() <= CAPACITY,
        ensures
            final(self).wf(),
            final(self)@ == old(self)@.appended(vertices@, texture_coords@),
    {
        let items: usize = vertices.len();
        write_at(&mut self.pos_buffer, self.offset, vertices);
        write_at(&mut self.uv_buffer, self.offset, texture_coords);
        self.offset = self.offset + items;
        assert(self@.positions =~= old(self)@.positions + vertices@);
        assert(self@.uvs =~= old(self)@.uvs + texture_coords@);
    }

    /// Releases the batch's device objects: the two buffers, the vertex
    /// array, the program and the two shaders. What still waited is dropped.
    pub fn delete(self, dev: &mut Device)
        ensures
            final(dev)@ == old(dev)@.followed_by(self@.delete_calls()),
    {
        let Textured { vao, vertex_shader, fragment_shader, program, pos, uv, .. } = self;
        pos.delete(dev);
        uv.delete(dev);
        gl::DeleteVertexArrays(dev, vao);
        gl::DeleteProgram(dev, program);
        gl::DeleteShader(dev, vertex_shader);
        gl::DeleteShader(dev, fragment_shader);
        assert(dev@.calls =~= old(dev)@.calls + self@.delete_calls());
    }
}

/// Contains OpenGL data.
pub struct GlGraphics {
    colored: Colored,
    textured: Textured,
    // Keeps track of the current shader program.
    current_program: Option<GLuint>,
    // Keeps track of the current draw state.
    current_draw_state: Option<DrawState>,
    // Keeps track of the current viewport
    current_viewport: Option<Viewport>,
}

/// What a [`GlGraphics`] holds.
pub struct GlGraphicsView {
    pub colored: ColoredView,
    pub textured: TexturedView,
    /// The program that the device runs, where that is known.
    pub current_program: Option<GLuint>,
    /// The draw state that the device is in, where that is known.
    pub current_draw_state: Option<DrawState>,
    /// The viewport of the frame.
    pub current_viewport: Option<Viewport>,
}

impl GlGraphicsView {
    /// Whether the renderer can be asked to draw under `state`: where the
    /// scissor setting has to be sent to the device, because none is known
    /// to be in force or another one is, the state's scissor box must be
    /// one that can be written in the device's coordinates.
    pub open spec fn takes(self, state: DrawState) -> bool {
        (self.current_draw_state matches Some(current) ==> current.scissor != state.scissor)
            ==> scissor_fits(state.scissor, self.current_viewport)
    }
}

impl View for GlGraphics {
    type V = GlGraphicsView;

    closed spec fn view(&self) -> GlGraphicsView {
        GlGraphicsView {
            colored: self.colored@,
            textured: self.textured@,
            current_program: self.current_program,
            current_draw_state: self.current_draw_state,
            current_viewport: self.current_viewport,
        }
    }
}

/// A renderer together with the device that it writes to. The functions
/// below say what each operation of the renderer makes of the two.
pub struct Machine {
    pub g: GlGraphicsView,
    pub d: DeviceView,
}

impl Machine {
    /// Makes `program` the current program, unless it is known to be.
    pub open spec fn use_program(self, program: GLuint) -> Machine {
        if self.g.current_program == Some(program) {
            self
        } else {
            Machine {
                g: GlGraphicsView { current_program: Some(program), ..self.g },
                d: self.d.call(GlCall::UseProgram(program)),
            }
        }
    }

    /// Moves the device to `state`: by the difference to the state that it
    /// is known to be in, or, where none is known, by every setting.
    pub open spec fn use_draw_state(self, state: DrawState) -> Machine {
        Machine {
            g: GlGraphicsView { current_draw_state: Some(state), ..self.g },
            d: self.d.followed_by(
                match self.g.current_draw_state {
                    None => state_calls(state, self.g.current_viewport),
                    Some(old_state) => state_delta(old_state, state, self.g.current_viewport),
                },
            ),
        }
    }

    /// Draws what waits in the colored batch, under the batch's program.
    pub open spec fn flush_colored(self) -> Machine {
        let m = self.use_program(self.g.colored.program);
        Machine {
            g: GlGraphicsView { colored: m.g.colored.flushed(), ..m.g },
            d: m.g.colored.flush(m.d),
        }
    }

    /// Draws what waits in the textured batch, under the batch's program.
    pub open spec fn flush_textured(self) -> Machine {
        let m = self.use_program(self.g.textured.program);
        Machine {
            g: GlGraphicsView { textured: m.g.textured.flushed(), ..m.g },
            d: m.g.textured.flush(m.d),
        }
    }

    /// Starts a frame: the viewport is set and remembered, what was known
    /// of the device's program and draw state is forgotten, and conversion
    /// to sRGB is switched on for the frame buffer.
    pub open spec fn draw_begin(self, viewport: Viewport) -> Machine {
        Machine {
            g: GlGraphicsView {
                current_viewport: Some(viewport),
                current_program: None,
                current_draw_state: None,
                ..self.g
            },
            d: self.d.followed_by(
                seq![
                    GlCall::Viewport {
                        x: viewport.rect[0],
                        y: viewport.rect[1],
                        width: viewport.rect[2],
                        height: viewport.rect[3],
                    },
                    GlCall::Enable(gl::FRAMEBUFFER_SRGB),
                ],
            ),
        }
    }

    /// Ends a frame: whatever waits is drawn, colored batch first.
    pub open spec fn draw_end(self) -> Machine {
        let m = if self.g.colored.positions.len() > 0 {
            self.flush_colored()
        } else {
            self
        };
        if m.g.textured.positions.len() > 0 {
            m.flush_textured()
        } else {
            m
        }
    }

    /// Fills the color buffer with `color` and resets the depth buffer.
    pub open spec fn clear_color(self, color: [u32; 4]) -> Machine {
        Machine {
            g: self.g,
            d: self.d.followed_by(
                seq![
                    GlCall::ClearColor {
                        red: color[0],
                        green: color[1],
                        blue: color[2],
                        alpha: color[3],
                    },
                    GlCall::Clear(gl::COLOR_BUFFER_BIT | gl::DEPTH_BUFFER_BIT),
                ],
            ),
        }
    }

    /// Fills the stencil buffer with `value`.
    pub open spec fn clear_stencil(self, value: u8) -> Machine {
        Machine {
            g: self.g,
            d: self.d.followed_by(
                seq![GlCall::ClearStencil(value as i32), GlCall::Clear(gl::STENCIL_BUFFER_BIT)],
            ),
        }
    }

    /// Prepares for colored triangles under `state`. What waits in the
    /// textured batch is drawn first. Where the device is not known to be in
    /// `state`, the colored program is made current, what waits in the
    /// colored batch is drawn under the state it was gathered for, and then
    /// the device is moved to `state`. A device of which no state is known
    /// is first moved to the state with everything switched off.
    pub open spec fn tri_list_begin(self, state: DrawState) -> Machine {
        let m1 = if self.g.textured.positions.len() > 0 {
            self.flush_textured()
        } else {
            self
        };
        if m1.g.current_draw_state != Some(state) {
            let m2 = m1.use_program(m1.g.colored.program);
            let m3 = if m2.g.current_draw_state is None {
                m2.use_draw_state(DrawState::disabled())
            } else {
                m2
            };
            let m4 = if m3.g.colored.positions.len() > 0 {
                m3.flush_colored()
            } else {
                m3
            };
            m4.use_draw_state(state)
        } else {
            m1
        }
    }

    /// Adds `vertices`, all in `color`, to the colored batch. Where they do
    /// not fit beside what waits, that is drawn first.
    pub open spec fn tri_list_chunk(self, color: [u32; 4], vertices: Seq<[u32; 2]>) -> Machine {
        let m = if self.g.colored.positions.len() + vertices.len() > CAPACITY {
            self.flush_colored()
        } else {
            self
        };
        Machine {
            g: GlGraphicsView { colored: m.g.colored.appended(color, vertices), ..m.g },
            d: m.d,
        }
    }

    /// Adds `vertices`, each in its own color, to the colored batch. Where
    /// they do not fit beside what waits, that is drawn first.
    pub open spec fn tri_list_c_chunk(
        self,
        vertices: Seq<[u32; 2]>,
        colors: Seq<[u32; 4]>,
    ) -> Machine {
        let m = if self.g.colored.positions.len() + vertices.len() > CAPACITY {
            self.flush_colored()
        } else {
            self
        };
        Machine {
            g: GlGraphicsView { colored: m.g.colored.appended_with(vertices, colors), ..m.g },
            d: m.d,
        }
    }

    /// Adds the chunks, one after the other, to the colored batch.
    pub open spec fn tri_list_chunks(self, color: [u32; 4], chunks: Seq<Seq<[u32; 2]>>) -> Machine
        decreases chunks.len(),
    {
        if chunks.len() == 0 {
            self
        } else {
            self.tri_list_chunks(color, chunks.drop_last()).tri_list_chunk(color, chunks.last())
        }
    }

    /// Renders a list of colored triangles, handed over in chunks.
    pub open spec fn tri_list(
        self,
        state: DrawState,
        color: [u32; 4],
        chunks: Seq<Seq<[u32; 2]>>,
    ) -> Machine {
        self.tri_list_begin(state).tri_list_chunks(color, chunks)
    }

    /// Whether textured triangles under `state`, with the given texture and
    /// color, can join what waits in the textured batch.
    pub open spec fn continues_textured(
        self,
        state: DrawState,
        color: [u32; 4],
        texture: GLuint,
    ) -> bool {
        &&& self.g.current_draw_state == Some(state)
        &&& self.g.textured.last_texture_id == texture
        &&& color_eq(self.g.textured.last_color, color)
    }

    /// Prepares for textured triangles under `state`. What waits in the
    /// colored batch is drawn first. Where the device is not known to be in
    /// `state`, or the texture or the color is another than that of the
    /// batch, what waits in the textured batch is drawn, with the texture,
    /// color and state it was gathered for, and then the device is moved to
    /// `state`. The batch takes on the new texture and color.
    pub open spec fn tri_list_uv_begin(
        self,
        state: DrawState,
        color: [u32; 4],
        texture: GLuint,
    ) -> Machine {
        let m1 = if self.g.colored.positions.len() > 0 {
            self.flush_colored()
        } else {
            self
        };
        let m5 = if !m1.continues_textured(state, color, texture) {
            let m3 = if m1.g.current_draw_state is None {
                m1.use_draw_state(DrawState::disabled())
            } else {
                m1
            };
            let m4 = if m3.g.textured.positions.len() > 0 {
                m3.flush_textured()
            } else {
                m3
            };
            m4.use_draw_state(state)
        } else {
            m1
        };
        Machine {
            g: GlGraphicsView { textured: m5.g.textured.bound(texture, color), ..m5.g },
            d: m5.d,
        }
    }

    /// Adds `vertices` with their texture coordinates to the textured batch.
    /// Where they do not fit beside what waits, that is drawn first.
    pub open spec fn tri_list_uv_chunk(
        self,
        vertices: Seq<[u32; 2]>,
        texture_coords: Seq<[u32; 2]>,
    ) -> Machine {
        let m = if self.g.textured.positions.len() + vertices.len() > CAPACITY {
            self.flush_textured()
        } else {
            self
        };
        Machine {
            g: GlGraphicsView { textured: m.g.textured.appended(vertices, texture_coords), ..m.g },
            d: m.d,
        }
    }

    /// Adds the chunks, one after the other, to the textured batch.
    pub open spec fn tri_list_uv_chunks(
        self,
        chunks: Seq<(Seq<[u32; 2]>, Seq<[u32; 2]>)>,
    ) -> Machine
        decreases chunks.len(),
    {
        if chunks.len() == 0 {
            self
        } else {
            self.tri_list_uv_chunks(chunks.drop_last()).tri_list_uv_chunk(
                chunks.last().0,
                chunks.last().1,
            )
        }
    }

    /// Renders a list of textured triangles, handed over in chunks.
    pub open spec fn tri_list_uv(
        self,
        state: DrawState,
        color: [u32; 4],
        texture: GLuint,
        chunks: Seq<(Seq<[u32; 2]>, Seq<[u32; 2]>)>,
    ) -> Machine {
        self.tri_list_uv_begin(state, color, texture).tri_list_uv_chunks(chunks)
    }
}

/// What a list of chunks holds.
pub open spec fn chunks_view(chunks: Seq<Vec<[u32; 2]>>) -> Seq<Seq<[u32; 2]>> {
    chunks.map_values(|c: Vec<[u32; 2]>| c@)
}

/// What a list of chunks with texture coordinates holds.
pub open spec fn uv_chunks_view(chunks: Seq<(Vec<[u32; 2]>, Vec<[u32; 2]>)>) -> Seq<
    (Seq<[u32; 2]>, Seq<[u32; 2]>),
> {
    chunks.map_values(|c: (Vec<[u32; 2]>, Vec<[u32; 2]>)| (c.0@, c.1@))
}

/// Whether each chunk has as many texture coordinates as vertices, and no
/// more of them than a batch can hold.
pub open spec fn uv_chunks_fit(chunks: Seq<(Seq<[u32; 2]>, Seq<[u32; 2]>)>) -> bool {
    forall|i: int|
        0 <= i < chunks.len() ==> (#[trigger] chunks[i]).0.len() == chunks[i].1.len()
            && chunks[i].0.len() <= CAPACITY
}

/// Whether no chunk holds more vertices than a batch can hold.
pub open spec fn chunks_fit(chunks: Seq<Seq<[u32; 2]>>) -> bool {
    forall|i: int| 0 <= i < chunks.len() ==> (#[trigger] chunks[i]).len() <= CAPACITY
}

impl GlGraphics {
    /// Both batches are well formed.
    pub closed spec fn wf(&self) -> bool {
        self.colored.wf() && self.textured.wf()
    }

    /// The renderer and the device, taken together.
    pub open spec fn with(&self, dev: &Device) -> Machine {
        Machine { g: self@, d: dev@ }
    }

    /// In a well-formed renderer neither batch holds more than it can, and
    /// each waiting vertex has its color or its texture coordinates.
    pub proof fn wf_bounds(&self)
        requires
            self.wf(),
        ensures
            self@.colored.positions.len() == self@.colored.colors.len(),
            self@.colored.positions.len() <= CAPACITY,
            self@.textured.positions.len() == self@.textured.uvs.len(),
            self@.textured.positions.len() <= CAPACITY,
    {
        self.colored.wf_bounds();
        self.textured.wf_bounds();
    }

    /// Create a new OpenGL back-end with `Colored` and `Textured` structs to describe
    /// how to render objects. Nothing is known of the device's program, draw
    /// state or viewport.
    pub fn from_colored_textured(colored: Colored, textured: Textured) -> (g: GlGraphics)
        requires
            colored.wf(),
            textured.wf(),
        ensures
            g.wf(),
            g@ == (GlGraphicsView {
                colored: colored@,
                textured: textured@,
                current_program: None,
                current_draw_state: None,
                current_viewport: None,
            }),
    {
        GlGraphics {
            colored,
            textured,
            current_program: None,
            current_draw_state: None,
            current_viewport: None,
        }
    }

    /// Sets viewport with normalized coordinates and center as origin.
    fn viewport(&mut self, dev: &mut Device, x: i32, y: i32, w: i32, h: i32)
        ensures
            *final(self) == *old(self),
            final(dev)@ == old(dev)@.call(GlCall::Viewport { x, y, width: w, height: h }),
    {
        gl::Viewport(dev, x, y, w, h);
    }

    /// Whether the renderer can be asked to draw under `draw_state`.
    pub fn takes(&self, draw_state: &DrawState) -> (r: bool)
        ensures
            r == self@.takes(*draw_state),
    {
        match &self.current_draw_state {
            Some(current) => same_scissor(current.scissor, draw_state.scissor) || scissor_in_range(
                draw_state.scissor,
                &self.current_viewport,
            ),
            None => scissor_in_range(draw_state.scissor, &self.current_viewport),
        }
    }

    /// Returns the current program
    pub fn get_current_program(&self) -> (program: Option<GLuint>)
        ensures
            program == self@.current_program,
    {
        self.current_program
    }

    /// Sets the current program only if the program is not in use.
    pub fn use_program(&mut self, dev: &mut Device, program: GLuint)
        ensures
            final(self).wf() == old(self).wf(),
            final(self).with(final(dev)) == old(self).with(old(dev)).use_program(program),
    {
        match self.current_program {
            None => {},
            Some(current_program) => {
                if program == current_program {
                    return ;
                }
            },
        }
        gl::UseProgram(dev, program);
        self.current_program = Some(program);
    }

    /// Unset the current program.
    ///
    /// This forces the current program to be set on next drawing call.
    pub fn clear_program(&mut self)
        ensures
            final(self).wf() == old(self).wf(),
            final(self)@ == (GlGraphicsView { current_program: None, ..old(self)@ }),
    {
        self.current_program = None
    }

    /// Sets the current draw state, by detecting changes. The state that is
    /// current already takes no command.
    pub fn use_draw_state(&mut self, dev: &mut Device, draw_state: &DrawState)
        requires
            old(self)@.takes(*draw_state),
        ensures
            final(self).wf() == old(self).wf(),
            final(self).with(final(dev)) == old(self).with(old(dev)).use_draw_state(*draw_state),
            final(self)@.current_draw_state == Some(*draw_state),
            old(self)@.current_draw_state == Some(*draw_state) ==> final(dev)@ == old(dev)@
                && final(self)@ == old(self)@,
    {
        match self.current_draw_state {
            None => {
                bind_scissor(dev, draw_state.scissor, &self.current_viewport);
                bind_stencil(dev, draw_state.stencil);
                bind_blend(dev, draw_state.blend);
                assert(dev@.calls =~= old(dev)@.calls + state_calls(
                    *draw_state,
                    self.current_viewport,
                ));
            },
            Some(ref old_state) => {
                bind_state(dev, old_state, draw_state, &self.current_viewport);
            },
        }
        self.current_draw_state = Some(*draw_state);
    }

    /// Unsets the current draw state.
    ///
    /// This forces the current draw state to be set on next drawing call.
    pub fn clear_draw_state(&mut self)
        ensures
            final(self).wf() == old(self).wf(),
            final(self)@ == (GlGraphicsView { current_draw_state: None, ..old(self)@ }),
    {
        self.current_draw_state = None;
    }

    /// Setup that should be called at the start of a frame's draw call.
    pub fn draw_begin(&mut self, dev: &mut Device, viewport: Viewport)
        ensures
            final(self).wf() == old(self).wf(),
            final(self).with(final(dev)) == old(self).with(old(dev)).draw_begin(viewport),
    {
        let rect = viewport.rect;
        let (x, y, w, h) = (rect[0], rect[1], rect[2], rect[3]);
        self.viewport(dev, x, y, w, h);
        self.current_viewport = Some(viewport);
        self.clear_program();
        self.clear_draw_state();
        gl::Enable(dev, gl::FRAMEBUFFER_SRGB);
        assert(dev@.calls =~= old(self).with(old(dev)).draw_begin(viewport).d.calls);
    }

    /// Draws what waits in the colored batch, with one draw call.
    pub fn flush_colored(&mut self, dev: &mut Device)
        requires
            old(self).wf(),
        ensures
            final(self).wf(),
            final(self).with(final(dev)) == old(self).with(old(dev)).flush_colored(),
    {
        let program: GLuint = self.colored.program;
        self.use_program(dev, program);
        self.colored.flush(dev);
    }

    /// Draws what waits in the textured batch, with one draw call.
    pub fn flush_textured(&mut self, dev: &mut Device)
        requires
            old(self).wf(),
        ensures
            final(self).wf(),
            final(self).with(final(dev)) == old(self).with(old(dev)).flush_textured(),
    {
        let program: GLuint = self.textured.program;
        self.use_program(dev, program);
        self.textured.flush(dev);
    }

    /// Finalize the frame's draw calls.
    pub fn draw_end(&mut self, dev: &mut Device)
        requires
            old(self).wf(),
        ensures
            final(self).wf(),
            final(self).with(final(dev)) == old(self).with(old(dev)).draw_end(),
            final(self)@.colored.positions.len() == 0,
            final(self)@.textured.positions.len() == 0,
    {
        if self.colored.offset > 0 {
            self.flush_colored(dev);
        }
        if self.textured.offset > 0 {
            self.flush_textured(dev);
        }
    }

    /// Assume all textures has alpha channel for now.
    pub fn has_texture_alpha(&self, _texture: &Texture) -> (alpha: bool)
        ensures
            alpha,
    {
        true
    }

    /// Fills the color buffer with `color`, which is in linear color space,
    /// and resets the depth buffer.
    pub fn clear_color(&mut self, dev: &mut Device, color: [u32; 4])
        ensures
            final(self).wf() == old(self).wf(),
            final(self).with(final(dev)) == old(self).with(old(dev)).clear_color(color),
    {
        let (r, g, b, a) = (color[0], color[1], color[2], color[3]);
        gl::ClearColor(dev, r, g, b, a);
        gl::Clear(dev, gl::COLOR_BUFFER_BIT | gl::DEPTH_BUFFER_BIT);
        assert(dev@.calls =~= old(self).with(old(dev)).clear_color(color).d.calls);
    }

    /// Fills the stencil buffer with `value`.
    pub fn clear_stencil(&mut self, dev: &mut Device, value: u8)
        ensures
            final(self).wf() == old(self).wf(),
            final(self).with(final(dev)) == old(self).with(old(dev)).clear_stencil(value),
    {
        gl::ClearStencil(dev, value as i32);
        gl::Clear(dev, gl::STENCIL_BUFFER_BIT);
        assert(dev@.calls =~= old(self).with(old(dev)).clear_stencil(value).d.calls);
    }

    /// Prepares for the chunks of a list of colored triangles under
    /// `draw_state`.
    pub fn tri_list_begin(&mut self, dev: &mut Device, draw_state: &DrawState)
        requires
            old(self).wf(),
            old(self)@.takes(*draw_state),
        ensures
            final(self).wf(),
            final(self).with(final(dev)) == old(self).with(old(dev)).tri_list_begin(*draw_state),
    {
        if self.textured.offset > 0 {
            self.flush_textured(dev);
        }
        // Flush when draw state changes.

        let changed = match &self.current_draw_state {
            None => true,
            Some(current) => !current.same(draw_state),
        };
        if changed {
            let program: GLuint = self.colored.program;
            self.use_program(dev, program);
            if self.current_draw_state.is_none() {
                self.use_draw_state(dev, &DrawState::default());
            }
            if self.colored.offset > 0 {
                self.flush_colored(dev);
            }
            self.use_draw_state(dev, draw_state);
        }
    }

    /// Takes one chunk of a list of colored triangles, all in `color`,
    /// which is in linear color space.
    pub fn tri_list_chunk(&mut self, dev: &mut Device, color: &[u32; 4], vertices: &[[u32; 2]])
        requires
            old(self).wf(),
            vertices@.len() <= CAPACITY,
        ensures
            final(self).wf(),
            final(self).with(final(dev)) == old(self).with(old(dev)).tri_list_chunk(
                *color,
                vertices@,
            ),
    {
        let items: usize = vertices.len();
        // Render if there is not enough room.
        if self.colored.offset + items > CAPACITY {
            self.flush_colored(dev);
        }
        self.colored.append(*color, vertices);
    }

    /// Takes one chunk of a list of colored triangles, with a color, in
    /// linear color space, for each vertex.
    pub fn tri_list_c_chunk(
        &mut self,
        dev: &mut Device,
        vertices: &[[u32; 2]],
        colors: &[[u32; 4]],
    )
        requires
            old(self).wf(),
            vertices@.len() <= CAPACITY,
            colors@.len() == vertices@.len(),
        ensures
            final(self).wf(),
            final(self).with(final(dev)) == old(self).with(old(dev)).tri_list_c_chunk(
                vertices@,
                colors@,
            ),
    {
        let items: usize = vertices.len();
        // Render if there is not enough room.
        if self.colored.offset + items > CAPACITY {
            self.flush_colored(dev);
        }
        self.colored.append_with(vertices, colors);
    }

    /// Renders a list of colored triangles, all in `color`, which is in
    /// linear color space, under `draw_state`.
    pub fn tri_list(
        &mut self,
        dev: &mut Device,
        draw_state: &DrawState,
        color: &[u32; 4],
        chunks: &Vec<Vec<[u32; 2]>>,
    )
        requires
            old(self).wf(),
            old(self)@.takes(*draw_state),
            chunks_fit(chunks_view(chunks@)),
        ensures
            final(self).wf(),
            final(self).with(final(dev)) == old(self).with(old(dev)).tri_list(
                *draw_state,
                *color,
                chunks_view(chunks@),
            ),
    {
        self.tri_list_begin(dev, draw_state);
        let ghost begun = self.with(dev);
        let ghost all = chunks_view(chunks@);
        let mut i: usize = 0;
        while i < chunks.len()
            invariant
                i <= chunks@.len(),
                all == chunks_view(chunks@),
                chunks_fit(all),
                self.wf(),
                self.with(dev) == begun.tri_list_chunks(*color, all.take(i as int)),
            decreases chunks@.len() - i,
        {
            proof {
                assert(all.take(i + 1).drop_last() =~= all.take(i as int));
                assert(all.take(i + 1).last() == all[i as int]);
            }
            self.tri_list_chunk(dev, color, chunks[i].as_slice());
            i = i + 1;
        }
        assert(all.take(i as int) =~= all);
    }

    /// Prepares for the chunks of a list of textured triangles under
    /// `draw_state`, tinted by `color`, which is in linear color space.
    pub fn tri_list_uv_begin(
        &mut self,
        dev: &mut Device,
        draw_state: &DrawState,
        color: &[u32; 4],
        texture: &Texture,
    )
        requires
            old(self).wf(),
            old(self)@.takes(*draw_state),
        ensures
            final(self).wf(),
            final(self).with(final(dev)) == old(self).with(old(dev)).tri_list_uv_begin(
                *draw_state,
                *color,
                texture@.id,
            ),
    {
        if self.colored.offset > 0 {
            self.flush_colored(dev);
        }
        // Flush when draw state changes.

        let changed = match &self.current_draw_state {
            None => true,
            Some(current) => !current.same(draw_state),
        };
        if changed || self.textured.last_texture_id != texture.get_id() || !same_color(
            &self.textured.last_color,
            color,
        ) {
            if self.current_draw_state.is_none() {
                self.use_draw_state(dev, &DrawState::default());
            }
            if self.textured.offset > 0 {
                self.flush_textured(dev);
            }
            self.use_draw_state(dev, draw_state);
        }
        self.textured.last_texture_id = texture.get_id();
        self.textured.last_color = *color;
    }

    /// Takes one chunk of a list of textured triangles.
    pub fn tri_list_uv_chunk(
        &mut self,
        dev: &mut Device,
        vertices: &[[u32; 2]],
        texture_coords: &[[u32; 2]],
    )
        requires
            old(self).wf(),
            vertices@.len() <= CAPACITY,
            texture_coords@.len() == vertices@.len(),
        ensures
            final(self).wf(),
            final(self).with(final(dev)) == old(self).with(old(dev)).tri_list_uv_chunk(
                vertices@,
                texture_coords@,
            ),
    {
        let items: usize = vertices.len();
        // Render if there is not enough room.
        if self.textured.offset + items > CAPACITY {
            self.flush_textured(dev);
        }
        self.textured.append(vertices, texture_coords);
    }

    /// Renders a list of textured triangles under `draw_state`, tinted by
    /// `color`, which is in linear color space.
    pub fn tri_list_uv(
        &mut self,
        dev: &mut Device,
        draw_state: &DrawState,
        color: &[u32; 4],
        texture: &Texture,
        chunks: &Vec<(Vec<[u32; 2]>, Vec<[u32; 2]>)>,
    )
        requires
            old(self).wf(),
            old(self)@.takes(*draw_state),
            uv_chunks_fit(uv_chunks_view(chunks@)),
        ensures
            final(self).wf(),
            final(self).with(final(dev)) == old(self).with(old(dev)).tri_list_uv(
                *draw_state,
                *color,
                texture@.id,
                uv_chunks_view(chunks@),
            ),
    {
        self.tri_list_uv_begin(dev, draw_state, color, texture);
        let ghost begun = self.with(dev);
        let ghost all = uv_chunks_view(chunks@);
        let mut i: usize = 0;
        while i < chunks.len()
            invariant
                i <= chunks@.len(),
                all == uv_chunks_view(chunks@),
                uv_chunks_fit(all),
                self.wf(),
                self.with(dev) == begun.tri_list_uv_chunks(all.take(i as int)),
            decreases chunks@.len() - i,
        {
            proof {
                assert(all.take(i + 1).drop_last() =~= all.take(i as int));
                assert(all.take(i + 1).last() == all[i as int]);
            }
            self.tri_list_uv_chunk(dev, chunks[i].0.as_slice(), chunks[i].1.as_slice());
            i = i + 1;
        }
        assert(all.take(i as int) =~= all);
    }

    /// Releases the device objects of both batches.
    pub fn delete(self, dev: &mut Device)
        ensures
            final(dev)@ == old(dev)@.followed_by(
                self@.colored.delete_calls() + self@.textured.delete_calls(),
            ),
    {
        let GlGraphics { colored, textured, .. } = self;
        colored.delete(dev);
        textured.delete(dev);
        assert(dev@.calls =~= old(dev)@.calls + (self@.colored.delete_calls()
            + self@.textured.delete_calls()));
    }
}

} // verus!
