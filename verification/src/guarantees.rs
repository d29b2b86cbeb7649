//! What the batching renderer guarantees, proved of its model.

use vstd::prelude::*;
use crate::back_end::{ColoredView, GlGraphicsView, Machine, TexturedView, CAPACITY};
use crate::draw_state::{blend_calls, scissor_calls, state_calls, state_delta, stencil_calls};
use crate::draw_state::{same_state_takes_no_call, DrawState, Viewport};
use crate::gl;
use crate::gl::{BlobView, DeviceView, GLuint, GlCall};

verus! {

/// The chunks, joined into one list of vertices.
pub open spec fn joined(chunks: Seq<Seq<[u32; 2]>>) -> Seq<[u32; 2]>
    decreases chunks.len(),
{
    if chunks.len() == 0 {
        Seq::empty()
    } else {
        joined(chunks.drop_last()) + chunks.last()
    }
}

impl Machine {
    /// The machine with `vertices`, all in `color`, added to what waits in
    /// the colored batch, and nothing drawn.
    pub open spec fn gathered(self, color: [u32; 4], vertices: Seq<[u32; 2]>) -> Machine {
        Machine {
            g: GlGraphicsView { colored: self.g.colored.appended(color, vertices), ..self.g },
            d: self.d,
        }
    }

    /// The machine with the textured batch set to the given texture and color.
    pub open spec fn textured_with(self, texture: GLuint, color: [u32; 4]) -> Machine {
        Machine {
            g: GlGraphicsView { textured: self.g.textured.bound(texture, color), ..self.g },
            d: self.d,
        }
    }

    /// Whether colored triangles under `state` can go on without any
    /// preparation: nothing textured waits, and the device is in `state`.
    pub open spec fn ready_for_colored(self, state: DrawState) -> bool {
        self.g.textured.positions.len() == 0 && self.g.current_draw_state == Some(state)
    }
}

/// A chunk in one color is a chunk in which each vertex has that color.
pub proof fn one_color_for_all(m: Machine, color: [u32; 4], vertices: Seq<[u32; 2]>)
    ensures
        m.tri_list_chunk(color, vertices) == m.tri_list_c_chunk(
            vertices,
            Seq::new(vertices.len(), |i: int| color),
        ),
{
}

/// Gathering two lists of vertices one after the other is gathering their
/// concatenation.
pub proof fn gathered_twice(m: Machine, color: [u32; 4], a: Seq<[u32; 2]>, b: Seq<[u32; 2]>)
    ensures
        m.gathered(color, a).gathered(color, b) == m.gathered(color, a + b),
{
    let c = m.g.colored;
    assert(c.appended(color, a).appended(color, b).positions =~= c.appended(
        color,
        a + b,
    ).positions);
    assert(c.appended(color, a).appended(color, b).colors =~= c.appended(color, a + b).colors);
}

/// As long as everything fits, chunks are only gathered: nothing is drawn,
/// and the batch ends up holding what it held, followed by the vertices of
/// all chunks in order.
pub proof fn chunks_that_fit_are_gathered(m: Machine, color: [u32; 4], chunks: Seq<Seq<[u32; 2]>>)
    requires
        m.g.colored.positions.len() + joined(chunks).len() <= CAPACITY,
    ensures
        m.tri_list_chunks(color, chunks) == m.gathered(color, joined(chunks)),
    decreases chunks.len(),
{
    if chunks.len() > 0 {
        chunks_that_fit_are_gathered(m, color, chunks.drop_last());
        gathered_twice(m, color, joined(chunks.drop_last()), chunks.last());
    }
}

/// Handing the chunks over in two runs gives what handing them over in one
/// run gives.
pub proof fn chunks_can_be_split(
    m: Machine,
    color: [u32; 4],
    a: Seq<Seq<[u32; 2]>>,
    b: Seq<Seq<[u32; 2]>>,
)
    ensures
        m.tri_list_chunks(color, a + b) == m.tri_list_chunks(color, a).tri_list_chunks(color, b),
    decreases b.len(),
{
    if b.len() > 0 {
        assert((a + b).drop_last() =~= a + b.drop_last());
        chunks_can_be_split(m, color, a, b.drop_last());
    }
}

/// After the preparation for colored triangles under `state`, colored
/// triangles under `state` can go on.
pub proof fn begin_makes_ready(m: Machine, state: DrawState)
    ensures
        m.tri_list_begin(state).ready_for_colored(state),
{
}

/// Gathering chunks of colored triangles does not end the readiness for them.
pub proof fn chunks_keep_ready(
    m: Machine,
    state: DrawState,
    color: [u32; 4],
    chunks: Seq<Seq<[u32; 2]>>,
)
    requires
        m.ready_for_colored(state),
    ensures
        m.tri_list_chunks(color, chunks).ready_for_colored(state),
    decreases chunks.len(),
{
    if chunks.len() > 0 {
        chunks_keep_ready(m, state, color, chunks.drop_last());
    }
}

/// Where colored triangles under `state` can go on, their preparation does
/// nothing.
pub proof fn begin_when_ready(m: Machine, state: DrawState)
    requires
        m.ready_for_colored(state),
    ensures
        m.tri_list_begin(state) == m,
{
}

/// A list of colored triangles may be handed over as two lists, in two
/// calls under the same state and color: the device receives the same
/// commands and data, and the renderer ends up the same.
pub proof fn one_call_or_two(
    m: Machine,
    state: DrawState,
    color: [u32; 4],
    a: Seq<Seq<[u32; 2]>>,
    b: Seq<Seq<[u32; 2]>>,
)
    ensures
        m.tri_list(state, color, a + b) == m.tri_list(state, color, a).tri_list(state, color, b),
{
    let begun = m.tri_list_begin(state);
    begin_makes_ready(m, state);
    chunks_keep_ready(begun, state, color, a);
    begin_when_ready(begun.tri_list_chunks(color, a), state);
    chunks_can_be_split(begun, color, a, b);
}

/// When more arrives than fits beside a full batch, the batch is drawn
/// once, when the first vertex arrives, and the rest is gathered. Chunks
/// without vertices change nothing.
pub proof fn a_full_batch_is_drawn_once(m: Machine, color: [u32; 4], tail: Seq<Seq<[u32; 2]>>)
    requires
        m.g.colored.positions.len() == CAPACITY,
        joined(tail).len() <= CAPACITY,
    ensures
        m.tri_list_chunks(color, tail) == (if joined(tail).len() == 0 {
            m
        } else {
            m.flush_colored().gathered(color, joined(tail))
        }),
    decreases tail.len(),
{
    if tail.len() > 0 {
        let init = tail.drop_last();
        let last = tail.last();
        a_full_batch_is_drawn_once(m, color, init);
        let before = m.tri_list_chunks(color, init);
        if joined(init).len() == 0 {
            assert(before == m);
            assert(joined(tail) =~= last);
            if last.len() == 0 {
                let c = m.g.colored;
                assert(c.appended(color, last).positions =~= c.positions);
                assert(c.appended(color, last).colors =~= c.colors);
            }
        } else {
            let drawn = m.flush_colored();
            assert(before == drawn.gathered(color, joined(init)));
            assert(before.g.colored.positions =~= joined(init));
            gathered_twice(drawn, color, joined(init), last);
        }
    }
}

/// One vertex too many for the batch takes two draw calls.
///
/// Let nothing wait in the colored batch, let `full` be chunks that fill
/// the batch to the brim, and let `tail` be more chunks, with one vertex at
/// least and no more than a batch holds. Then what `full` brought is drawn
/// by one call when the first vertex of `tail` arrives, what `tail` brought
/// waits when the list ends and is drawn by a second call at the end of the
/// frame, and nothing else is drawn.
pub proof fn overflow_takes_two_draws(
    m: Machine,
    color: [u32; 4],
    full: Seq<Seq<[u32; 2]>>,
    tail: Seq<Seq<[u32; 2]>>,
)
    requires
        m.g.colored.positions.len() == 0,
        m.g.colored.colors.len() == 0,
        m.g.textured.positions.len() == 0,
        joined(full).len() == CAPACITY,
        0 < joined(tail).len() <= CAPACITY,
    ensures
        m.tri_list_chunks(color, full + tail) == m.gathered(color, joined(full)).flush_colored().gathered(
            color,
            joined(tail),
        ),
        m.tri_list_chunks(color, full + tail).g.colored.positions == joined(tail),
        m.tri_list_chunks(color, full + tail).draw_end() == m.gathered(
            color,
            joined(full),
        ).flush_colored().gathered(color, joined(tail)).flush_colored(),
{
    chunks_that_fit_are_gathered(m, color, full);
    chunks_can_be_split(m, color, full, tail);
    let filled = m.gathered(color, joined(full));
    assert(filled.g.colored.positions =~= joined(full));
    a_full_batch_is_drawn_once(filled, color, tail);
    let after = filled.flush_colored().gathered(color, joined(tail));
    assert(after.g.colored.positions =~= joined(tail));
}

/// A change of texture draws what waits.
///
/// Let textured triangles wait, and let more arrive under the very draw
/// state that the device is in, but with another texture. Then what waits
/// is drawn, with the texture and the color it was gathered for, before the
/// batch takes on the new texture; the draw state is not touched.
pub proof fn texture_change_draws_first(
    m: Machine,
    state: DrawState,
    color: [u32; 4],
    texture: GLuint,
)
    requires
        m.g.colored.positions.len() == 0,
        m.g.textured.positions.len() > 0,
        m.g.current_draw_state == Some(state),
        m.g.textured.last_texture_id != texture,
    ensures
        m.tri_list_uv_begin(state, color, texture) == m.flush_textured().textured_with(
            texture,
            color,
        ),
{
    same_state_takes_no_call(state, m.g.current_viewport);
}

/// The numbers of vertices of the draw calls among `calls`, in order.
pub open spec fn draws(calls: Seq<GlCall>) -> Seq<int>
    decreases calls.len(),
{
    if calls.len() == 0 {
        Seq::empty()
    } else {
        match calls.last() {
            GlCall::DrawArrays { count, .. } => draws(calls.drop_last()).push(count as int),
            _ => draws(calls.drop_last()),
        }
    }
}

/// The sum of the numbers.
pub open spec fn sum(numbers: Seq<int>) -> int
    decreases numbers.len(),
{
    if numbers.len() == 0 {
        0
    } else {
        sum(numbers.drop_last()) + numbers.last()
    }
}

/// The draw calls of two runs of commands are those of the first run
/// followed by those of the second.
pub proof fn draws_of_two_runs(a: Seq<GlCall>, b: Seq<GlCall>)
    ensures
        draws(a + b) == draws(a) + draws(b),
    decreases b.len(),
{
    if b.len() > 0 {
        assert((a + b).drop_last() =~= a + b.drop_last());
        draws_of_two_runs(a, b.drop_last());
    }
}

/// Setting the draw state draws nothing.
pub proof fn setting_the_state_draws_nothing(
    old_state: DrawState,
    new_state: DrawState,
    viewport: Option<Viewport>,
)
    ensures
        draws(state_calls(new_state, viewport)) == Seq::<int>::empty(),
        draws(state_delta(old_state, new_state, viewport)) == Seq::<int>::empty(),
{
    reveal_with_fuel(draws, 5);
    let none = Seq::<GlCall>::empty();
    let a = scissor_calls(new_state.scissor, viewport);
    let b = stencil_calls(new_state.stencil);
    let c = blend_calls(new_state.blend);
    let a1 = if old_state.scissor != new_state.scissor {
        a
    } else {
        none
    };
    let b1 = if old_state.stencil != new_state.stencil {
        b
    } else {
        none
    };
    let c1 = if old_state.blend != new_state.blend {
        c
    } else {
        none
    };
    draws_of_two_runs(a, b);
    draws_of_two_runs(a + b, c);
    draws_of_two_runs(a1, b1);
    draws_of_two_runs(a1 + b1, c1);
}

/// Making a program current draws nothing.
pub proof fn using_a_program_draws_nothing(m: Machine, program: GLuint)
    ensures
        draws(m.use_program(program).d.calls) == draws(m.d.calls),
{
    reveal_with_fuel(draws, 2);
    if m.g.current_program != Some(program) {
        assert(m.d.calls.push(GlCall::UseProgram(program)).drop_last() =~= m.d.calls);
    }
}

/// Drawing the colored batch is one draw call, of all vertices that wait.
pub proof fn colored_flush_is_one_draw(c: ColoredView, d: DeviceView)
    requires
        c.positions.len() <= CAPACITY,
    ensures
        draws(c.flush(d).calls) == draws(d.calls).push(c.positions.len() as int),
{
    let tail = seq![
        GlCall::BindVertexArray(c.vao),
        GlCall::Disable(gl::CULL_FACE),
        GlCall::EnableVertexAttribArray(c.color.location),
        GlCall::BindBuffer { target: gl::ARRAY_BUFFER, buffer: c.color.vbo },
        GlCall::BufferData { target: gl::ARRAY_BUFFER, usage: gl::DYNAMIC_DRAW },
        GlCall::EnableVertexAttribArray(c.pos.location),
        GlCall::BindBuffer { target: gl::ARRAY_BUFFER, buffer: c.pos.vbo },
        GlCall::BufferData { target: gl::ARRAY_BUFFER, usage: gl::DYNAMIC_DRAW },
        GlCall::DrawArrays { mode: gl::TRIANGLES, first: 0, count: c.positions.len() as i32 },
        GlCall::BindVertexArray(0),
    ];
    assert(c.flush(d).calls =~= d.calls + tail);
    draws_of_two_runs(d.calls, tail);
    reveal_with_fuel(draws, 11);
}

/// Drawing the textured batch is one draw call, of all vertices that wait.
pub proof fn textured_flush_is_one_draw(t: TexturedView, d: DeviceView)
    requires
        t.positions.len() <= CAPACITY,
    ensures
        draws(t.flush(d).calls) == draws(d.calls).push(t.positions.len() as int),
{
    let tail = seq![
        GlCall::BindVertexArray(t.vao),
        GlCall::BindTexture { target: gl::TEXTURE_2D, texture: t.last_texture_id },
        GlCall::Uniform4f {
            location: t.color,
            x: t.last_color[0],
            y: t.last_color[1],
            z: t.last_color[2],
            w: t.last_color[3],
        },
        GlCall::Disable(gl::CULL_FACE),
        GlCall::EnableVertexAttribArray(t.pos.location),
        GlCall::BindBuffer { target: gl::ARRAY_BUFFER, buffer: t.pos.vbo },
        GlCall::BufferData { target: gl::ARRAY_BUFFER, usage: gl::DYNAMIC_DRAW },
        GlCall::EnableVertexAttribArray(t.uv.location),
        GlCall::BindBuffer { target: gl::ARRAY_BUFFER, buffer: t.uv.vbo },
        GlCall::BufferData { target: gl::ARRAY_BUFFER, usage: gl::DYNAMIC_DRAW },
        GlCall::DrawArrays { mode: gl::TRIANGLES, first: 0, count: t.positions.len() as i32 },
        GlCall::BindVertexArray(0),
    ];
    assert(t.flush(d).calls =~= d.calls + tail);
    draws_of_two_runs(d.calls, tail);
    reveal_with_fuel(draws, 13);
}

impl Machine {
    /// The number of vertices that the machine has drawn or holds.
    pub open spec fn vertices(self) -> int {
        sum(draws(self.d.calls)) + self.g.colored.positions.len()
            + self.g.textured.positions.len()
    }

    /// Neither batch holds more than a batch can hold.
    pub open spec fn within_capacity(self) -> bool {
        self.g.colored.positions.len() <= CAPACITY && self.g.textured.positions.len() <= CAPACITY
    }
}

/// No vertex is lost and none is drawn twice: after a chunk of colored
/// triangles, the vertices that have been drawn and those that wait are,
/// in number, those from before and those of the chunk.
pub proof fn a_chunk_adds_its_vertices(m: Machine, color: [u32; 4], vertices: Seq<[u32; 2]>)
    requires
        m.within_capacity(),
        vertices.len() <= CAPACITY,
    ensures
        m.tri_list_chunk(color, vertices).within_capacity(),
        m.tri_list_chunk(color, vertices).vertices() == m.vertices() + vertices.len(),
{
    if m.g.colored.positions.len() + vertices.len() > CAPACITY {
        let u = m.use_program(m.g.colored.program);
        using_a_program_draws_nothing(m, m.g.colored.program);
        colored_flush_is_one_draw(u.g.colored, u.d);
        let n = m.g.colored.positions.len() as int;
        assert(draws(u.d.calls).push(n).drop_last() =~= draws(u.d.calls));
    }
}

/// With one vertex too many for the batch, the device sees two draw calls:
/// one of as many vertices as the batch can hold, during the list, when the
/// first vertex arrives that does not fit; and one of the vertices that
/// came after, at the end of the frame.
pub proof fn overflow_is_drawn_in_two_calls(
    m: Machine,
    color: [u32; 4],
    full: Seq<Seq<[u32; 2]>>,
    tail: Seq<Seq<[u32; 2]>>,
)
    requires
        m.g.colored.positions.len() == 0,
        m.g.colored.colors.len() == 0,
        m.g.textured.positions.len() == 0,
        joined(full).len() == CAPACITY,
        0 < joined(tail).len() <= CAPACITY,
    ensures
        draws(m.tri_list_chunks(color, full).d.calls) == draws(m.d.calls),
        draws(m.tri_list_chunks(color, full + tail).d.calls) == draws(m.d.calls).push(
            CAPACITY as int,
        ),
        m.tri_list_chunks(color, full + tail).g.colored.positions.len() == joined(tail).len(),
        draws(m.tri_list_chunks(color, full + tail).draw_end().d.calls) == draws(
            m.d.calls,
        ).push(CAPACITY as int).push(joined(tail).len() as int),
{
    overflow_takes_two_draws(m, color, full, tail);
    chunks_that_fit_are_gathered(m, color, full);
    let filled = m.gathered(color, joined(full));
    assert(filled.g.colored.positions =~= joined(full));
    let u1 = filled.use_program(filled.g.colored.program);
    using_a_program_draws_nothing(filled, filled.g.colored.program);
    colored_flush_is_one_draw(u1.g.colored, u1.d);
    let first = filled.flush_colored();
    let last = first.gathered(color, joined(tail));
    assert(last.g.colored.positions =~= joined(tail));
    let u2 = last.use_program(last.g.colored.program);
    using_a_program_draws_nothing(last, last.g.colored.program);
    colored_flush_is_one_draw(u2.g.colored, u2.d);
}

/// Two lists of textured triangles with different textures take two draw
/// calls, though the draw state is the same.
///
/// Let nothing wait, and let the device be in `state`. Then a first list
/// with one texture, a second list with another, and the end of the frame
/// make the device draw twice: the vertices of the first list when the
/// second arrives, and those of the second at the end.
pub proof fn two_textures_take_two_draws(
    m: Machine,
    state: DrawState,
    color: [u32; 4],
    first_texture: GLuint,
    second_texture: GLuint,
    first: Seq<[u32; 2]>,
    first_uvs: Seq<[u32; 2]>,
    second: Seq<[u32; 2]>,
    second_uvs: Seq<[u32; 2]>,
)
    requires
        m.g.colored.positions.len() == 0,
        m.g.textured.positions.len() == 0,
        m.g.current_draw_state == Some(state),
        first_texture != second_texture,
        0 < first.len() <= CAPACITY,
        0 < second.len() <= CAPACITY,
    ensures
        ({
            let after_first = m.tri_list_uv(state, color, first_texture, seq![(first, first_uvs)]);
            let after_second = after_first.tri_list_uv(
                state,
                color,
                second_texture,
                seq![(second, second_uvs)],
            );
            &&& draws(after_first.d.calls) == draws(m.d.calls)
            &&& draws(after_second.d.calls) == draws(m.d.calls).push(first.len() as int)
            &&& draws(after_second.draw_end().d.calls) == draws(m.d.calls).push(
                first.len() as int,
            ).push(second.len() as int)
        }),
{
    reveal_with_fuel(Machine::tri_list_uv_chunks, 2);
    setting_the_state_draws_nothing(state, state, m.g.current_viewport);
    same_state_takes_no_call(state, m.g.current_viewport);
    // The first list: no draw.
    let b1 = m.tri_list_uv_begin(state, color, first_texture);
    let a1 = b1.tri_list_uv_chunk(first, first_uvs);
    // The second list: the first is drawn.
    texture_change_draws_first(a1, state, color, second_texture);
    let u1 = a1.use_program(a1.g.textured.program);
    using_a_program_draws_nothing(a1, a1.g.textured.program);
    textured_flush_is_one_draw(u1.g.textured, u1.d);
    let b2 = a1.tri_list_uv_begin(state, color, second_texture);
    let a2 = b2.tri_list_uv_chunk(second, second_uvs);
    // The end of the frame: the second is drawn.
    let u2 = a2.use_program(a2.g.textured.program);
    using_a_program_draws_nothing(a2, a2.g.textured.program);
    textured_flush_is_one_draw(u2.g.textured, u2.d);
}

/// Chunks of colored triangles leave the textured batch as it is.
pub proof fn colored_chunks_leave_textured_alone(
    m: Machine,
    color: [u32; 4],
    chunks: Seq<Seq<[u32; 2]>>,
)
    ensures
        m.tri_list_chunks(color, chunks).g.textured == m.g.textured,
    decreases chunks.len(),
{
    if chunks.len() > 0 {
        colored_chunks_leave_textured_alone(m, color, chunks.drop_last());
    }
}

/// Chunks of textured triangles leave the colored batch as it is.
pub proof fn textured_chunks_leave_colored_alone(
    m: Machine,
    chunks: Seq<(Seq<[u32; 2]>, Seq<[u32; 2]>)>,
)
    ensures
        m.tri_list_uv_chunks(chunks).g.colored == m.g.colored,
    decreases chunks.len(),
{
    if chunks.len() > 0 {
        textured_chunks_leave_colored_alone(m, chunks.drop_last());
    }
}

/// The two batches take turns: a list of colored triangles leaves nothing
/// waiting in the textured batch, a list of textured triangles leaves
/// nothing waiting in the colored batch, and the end of the frame leaves
/// nothing waiting at all.
pub proof fn batches_take_turns(
    m: Machine,
    state: DrawState,
    color: [u32; 4],
    texture: GLuint,
    chunks: Seq<Seq<[u32; 2]>>,
    uv_chunks: Seq<(Seq<[u32; 2]>, Seq<[u32; 2]>)>,
)
    ensures
        m.tri_list(state, color, chunks).g.textured.positions.len() == 0,
        m.tri_list_uv(state, color, texture, uv_chunks).g.colored.positions.len() == 0,
        m.draw_end().g.colored.positions.len() == 0,
        m.draw_end().g.textured.positions.len() == 0,
{
    colored_chunks_leave_textured_alone(m.tri_list_begin(state), color, chunks);
    textured_chunks_leave_colored_alone(m.tri_list_uv_begin(state, color, texture), uv_chunks);
}

/// The two-component vertex data among `blobs`, joined in order.
pub open spec fn vec2_data(blobs: Seq<BlobView>) -> Seq<[u32; 2]>
    decreases blobs.len(),
{
    if blobs.len() == 0 {
        Seq::empty()
    } else {
        match blobs.last() {
            BlobView::Vec2(data) => vec2_data(blobs.drop_last()) + data,
            _ => vec2_data(blobs.drop_last()),
        }
    }
}

/// The four-component vertex data among `blobs`, joined in order.
pub open spec fn vec4_data(blobs: Seq<BlobView>) -> Seq<[u32; 4]>
    decreases blobs.len(),
{
    if blobs.len() == 0 {
        Seq::empty()
    } else {
        match blobs.last() {
            BlobView::Vec4(data) => vec4_data(blobs.drop_last()) + data,
            _ => vec4_data(blobs.drop_last()),
        }
    }
}

impl Machine {
    /// The positions of colored vertices that the device has been given,
    /// followed by those that wait.
    pub open spec fn colored_positions(self) -> Seq<[u32; 2]> {
        vec2_data(self.d.blobs) + self.g.colored.positions
    }

    /// The colors of colored vertices that the device has been given,
    /// followed by those that wait.
    pub open spec fn colored_colors(self) -> Seq<[u32; 4]> {
        vec4_data(self.d.blobs) + self.g.colored.colors
    }
}

/// Drawing the colored batch hands the device exactly what waited: the
/// colors and the positions, in their order.
pub proof fn colored_flush_hands_over_what_waits(m: Machine)
    ensures
        m.flush_colored().colored_positions() == m.colored_positions(),
        m.flush_colored().colored_colors() == m.colored_colors(),
{
    reveal_with_fuel(vec2_data, 3);
    reveal_with_fuel(vec4_data, 3);
    let c = m.g.colored;
    let before = m.d.blobs;
    let after = m.flush_colored().d.blobs;
    let colors = BlobView::Vec4(c.colors);
    assert(after.drop_last() =~= before.push(colors));
    assert(before.push(colors).drop_last() =~= before);
}

/// No colored vertex is lost, doubled or moved: after any number of chunks,
/// the positions that the device has been given, followed by those that
/// wait, are those from before followed by the positions of all chunks, in
/// order; and each has the color it came with.
pub proof fn colored_vertices_are_kept(m: Machine, color: [u32; 4], chunks: Seq<Seq<[u32; 2]>>)
    ensures
        m.tri_list_chunks(color, chunks).colored_positions() == m.colored_positions() + joined(
            chunks,
        ),
        m.tri_list_chunks(color, chunks).colored_colors() == m.colored_colors() + Seq::new(
            joined(chunks).len(),
            |i: int| color,
        ),
    decreases chunks.len(),
{
    if chunks.len() > 0 {
        let init = chunks.drop_last();
        let last = chunks.last();
        colored_vertices_are_kept(m, color, init);
        let before = m.tri_list_chunks(color, init);
        let flushed = if before.g.colored.positions.len() + last.len() > CAPACITY {
            before.flush_colored()
        } else {
            before
        };
        if before.g.colored.positions.len() + last.len() > CAPACITY {
            colored_flush_hands_over_what_waits(before);
        }
        let after = before.tri_list_chunk(color, last);
        assert(after.colored_positions() =~= flushed.colored_positions() + last);
        assert(after.colored_colors() =~= flushed.colored_colors() + Seq::new(
            last.len(),
            |i: int| color,
        ));
    }
}

/// Chunks of colored triangles keep one color for each position that waits.
pub proof fn chunks_keep_a_color_for_each(m: Machine, color: [u32; 4], chunks: Seq<Seq<[u32; 2]>>)
    requires
        m.g.colored.positions.len() == m.g.colored.colors.len(),
    ensures
        m.tri_list_chunks(color, chunks).g.colored.positions.len() == m.tri_list_chunks(
            color,
            chunks,
        ).g.colored.colors.len(),
    decreases chunks.len(),
{
    if chunks.len() > 0 {
        chunks_keep_a_color_for_each(m, color, chunks.drop_last());
    }
}

/// The preparation for colored triangles loses no colored vertex: what
/// waited and has to be drawn under the old state is handed to the device
/// as it is.
pub proof fn begin_keeps_colored_vertices(m: Machine, state: DrawState)
    requires
        m.g.textured.positions.len() == 0,
    ensures
        m.tri_list_begin(state).colored_positions() == m.colored_positions(),
        m.tri_list_begin(state).colored_colors() == m.colored_colors(),
        m.tri_list_begin(state).g.textured.positions.len() == 0,
        m.g.colored.positions.len() == m.g.colored.colors.len() ==> m.tri_list_begin(
            state,
        ).g.colored.positions.len() == m.tri_list_begin(state).g.colored.colors.len(),
{
    if m.g.current_draw_state != Some(state) {
        let m2 = m.use_program(m.g.colored.program);
        let m3 = if m2.g.current_draw_state is None {
            m2.use_draw_state(DrawState::disabled())
        } else {
            m2
        };
        assert(m3.colored_positions() == m.colored_positions());
        assert(m3.colored_colors() == m.colored_colors());
        if m3.g.colored.positions.len() > 0 {
            colored_flush_hands_over_what_waits(m3);
        }
    }
}

/// A list of colored triangles loses no vertex, doubles none and moves
/// none: the positions that the device has been given, followed by those
/// that wait, are those from before followed by the positions of all
/// chunks, in order; and each vertex of the list has the one color of the
/// list.
pub proof fn a_list_keeps_its_vertices(
    m: Machine,
    state: DrawState,
    color: [u32; 4],
    chunks: Seq<Seq<[u32; 2]>>,
)
    requires
        m.g.textured.positions.len() == 0,
    ensures
        m.tri_list(state, color, chunks).colored_positions() == m.colored_positions() + joined(
            chunks,
        ),
        m.tri_list(state, color, chunks).colored_colors() == m.colored_colors() + Seq::new(
            joined(chunks).len(),
            |i: int| color,
        ),
        m.tri_list(state, color, chunks).g.textured.positions.len() == 0,
        m.g.colored.positions.len() == m.g.colored.colors.len() ==> m.tri_list(
            state,
            color,
            chunks,
        ).g.colored.positions.len() == m.tri_list(state, color, chunks).g.colored.colors.len(),
{
    begin_keeps_colored_vertices(m, state);
    if m.g.colored.positions.len() == m.g.colored.colors.len() {
        chunks_keep_a_color_for_each(m.tri_list_begin(state), color, chunks);
    }
    colored_vertices_are_kept(m.tri_list_begin(state), color, chunks);
    colored_chunks_leave_textured_alone(m.tri_list_begin(state), color, chunks);
}

/// At the end of a frame of colored triangles the device has been given
/// every vertex once, in order, each in its color, and nothing waits.
pub proof fn the_end_of_the_frame_hands_over_the_rest(m: Machine)
    requires
        m.g.textured.positions.len() == 0,
        m.g.colored.positions.len() == m.g.colored.colors.len(),
    ensures
        vec2_data(m.draw_end().d.blobs) == m.colored_positions(),
        vec4_data(m.draw_end().d.blobs) == m.colored_colors(),
        m.draw_end().g.colored.positions.len() == 0,
        m.draw_end().g.colored.colors.len() == 0,
{
    if m.g.colored.positions.len() > 0 {
        colored_flush_hands_over_what_waits(m);
    }
    let end = m.draw_end();
    assert(vec2_data(end.d.blobs) + end.g.colored.positions =~= vec2_data(end.d.blobs));
    assert(vec4_data(end.d.blobs) + end.g.colored.colors =~= vec4_data(end.d.blobs));
}

/// However a run of colored vertices is cut into lists and chunks, the
/// device is given the same.
///
/// Let the chunks of `whole` bring the vertices that the chunks of `first`
/// and then those of `second` bring. Then one list of `whole`, and a list
/// of `first` followed by a list of `second` under the same state and
/// color, each followed by the end of the frame, hand the device the same
/// positions in the same order, each in the color of the lists: those that
/// the device had, those that waited, and the new ones.
pub proof fn any_cut_hands_over_the_same(
    m: Machine,
    state: DrawState,
    color: [u32; 4],
    whole: Seq<Seq<[u32; 2]>>,
    first: Seq<Seq<[u32; 2]>>,
    second: Seq<Seq<[u32; 2]>>,
)
    requires
        m.g.textured.positions.len() == 0,
        m.g.colored.positions.len() == m.g.colored.colors.len(),
        joined(whole) == joined(first) + joined(second),
    ensures
        ({
            let one = m.tri_list(state, color, whole).draw_end();
            let two = m.tri_list(state, color, first).tri_list(state, color, second).draw_end();
            &&& vec2_data(one.d.blobs) == m.colored_positions() + joined(whole)
            &&& vec2_data(two.d.blobs) == vec2_data(one.d.blobs)
            &&& vec4_data(one.d.blobs) == m.colored_colors() + Seq::new(
                joined(whole).len(),
                |i: int| color,
            )
            &&& vec4_data(two.d.blobs) == vec4_data(one.d.blobs)
        }),
{
    let a = m.tri_list(state, color, whole);
    a_list_keeps_its_vertices(m, state, color, whole);
    the_end_of_the_frame_hands_over_the_rest(a);
    let b1 = m.tri_list(state, color, first);
    a_list_keeps_its_vertices(m, state, color, first);
    let b2 = b1.tri_list(state, color, second);
    a_list_keeps_its_vertices(b1, state, color, second);
    the_end_of_the_frame_hands_over_the_rest(b2);
    assert(m.colored_positions() + joined(first) + joined(second) =~= m.colored_positions()
        + joined(whole));
    assert(m.colored_colors() + Seq::new(joined(first).len(), |i: int| color) + Seq::new(
        joined(second).len(),
        |i: int| color,
    ) =~= m.colored_colors() + Seq::new(joined(whole).len(), |i: int| color));
}

/// The positions of the chunks of textured triangles, joined into one list.
pub open spec fn joined_positions(chunks: Seq<(Seq<[u32; 2]>, Seq<[u32; 2]>)>) -> Seq<[u32; 2]>
    decreases chunks.len(),
{
    if chunks.len() == 0 {
        Seq::empty()
    } else {
        joined_positions(chunks.drop_last()) + chunks.last().0
    }
}

/// The texture coordinates of the chunks of textured triangles, joined into
/// one list.
pub open spec fn joined_uvs(chunks: Seq<(Seq<[u32; 2]>, Seq<[u32; 2]>)>) -> Seq<[u32; 2]>
    decreases chunks.len(),
{
    if chunks.len() == 0 {
        Seq::empty()
    } else {
        joined_uvs(chunks.drop_last()) + chunks.last().1
    }
}

impl Machine {
    /// The machine with `vertices` and their texture coordinates added to
    /// what waits in the textured batch, and nothing drawn.
    pub open spec fn gathered_uv(self, vertices: Seq<[u32; 2]>, uvs: Seq<[u32; 2]>) -> Machine {
        Machine {
            g: GlGraphicsView { textured: self.g.textured.appended(vertices, uvs), ..self.g },
            d: self.d,
        }
    }
}

/// As long as everything fits, chunks of textured triangles are only
/// gathered: nothing is drawn, and the batch ends up holding what it held,
/// followed by the vertices of all chunks in order.
pub proof fn uv_chunks_that_fit_are_gathered(
    m: Machine,
    chunks: Seq<(Seq<[u32; 2]>, Seq<[u32; 2]>)>,
)
    requires
        m.g.textured.positions.len() + joined_positions(chunks).len() <= CAPACITY,
    ensures
        m.tri_list_uv_chunks(chunks) == m.gathered_uv(joined_positions(chunks), joined_uvs(chunks)),
    decreases chunks.len(),
{
    let t = m.g.textured;
    if chunks.len() > 0 {
        let init = chunks.drop_last();
        uv_chunks_that_fit_are_gathered(m, init);
        let p = joined_positions(init);
        let u = joined_uvs(init);
        let last = chunks.last();
        assert(t.appended(p, u).appended(last.0, last.1).positions =~= t.appended(
            p + last.0,
            u + last.1,
        ).positions);
        assert(t.appended(p, u).appended(last.0, last.1).uvs =~= t.appended(
            p + last.0,
            u + last.1,
        ).uvs);
    } else {
        assert(t.appended(Seq::empty(), Seq::empty()).positions =~= t.positions);
        assert(t.appended(Seq::empty(), Seq::empty()).uvs =~= t.uvs);
    }
}

/// A list of textured triangles with another texture than the one of the
/// vertices that wait draws those first, though the draw state is the same.
///
/// Let `n` textured vertices wait, let the device be in `state`, and let a
/// list arrive under `state` with another texture, whose vertices fit into
/// the batch. Then, before any of them is added, the waiting vertices are
/// drawn by one call of `n` vertices, with the texture and color they were
/// gathered for; no command sets the draw state; and when the list ends,
/// the batch has the new texture and holds the vertices of the list.
pub proof fn a_new_texture_draws_then_gathers(
    m: Machine,
    state: DrawState,
    color: [u32; 4],
    texture: GLuint,
    chunks: Seq<(Seq<[u32; 2]>, Seq<[u32; 2]>)>,
)
    requires
        m.g.colored.positions.len() == 0,
        0 < m.g.textured.positions.len() <= CAPACITY,
        m.g.current_draw_state == Some(state),
        m.g.textured.last_texture_id != texture,
        joined_positions(chunks).len() <= CAPACITY,
    ensures
        ({
            let after = m.tri_list_uv(state, color, texture, chunks);
            &&& after == m.flush_textured().textured_with(texture, color).gathered_uv(
                joined_positions(chunks),
                joined_uvs(chunks),
            )
            &&& draws(after.d.calls) == draws(m.d.calls).push(m.g.textured.positions.len() as int)
            &&& after.g.textured.last_texture_id == texture
            &&& after.g.textured.positions == joined_positions(chunks)
            &&& after.g.textured.uvs == joined_uvs(chunks)
        }),
{
    texture_change_draws_first(m, state, color, texture);
    let begun = m.tri_list_uv_begin(state, color, texture);
    assert(begun.g.textured.positions.len() == 0);
    uv_chunks_that_fit_are_gathered(begun, chunks);
    let after = begun.gathered_uv(joined_positions(chunks), joined_uvs(chunks));
    assert(after.g.textured.positions =~= joined_positions(chunks));
    assert(after.g.textured.uvs =~= joined_uvs(chunks));
    let u = m.use_program(m.g.textured.program);
    using_a_program_draws_nothing(m, m.g.textured.program);
    textured_flush_is_one_draw(u.g.textured, u.d);
}

} // verus!
