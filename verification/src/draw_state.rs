//! The draw state of a draw call, and its translation into device commands.
//!
//! A draw state has three aspects: scissor, stencil and blend. Moving the
//! device from one draw state to another touches only the aspects in which
//! the two differ.

use vstd::prelude::*;
use crate::gl;
use crate::gl::{Device, GlCall};

verus! {

/// How fragments are combined with what the frame buffer holds.
#[derive(Clone, Copy, Debug, PartialEq, Eq, Structural)]
pub enum Blend {
    /// Source over destination, weighted by the source's alpha.
    Alpha,
    /// Source plus destination.
    Add,
    /// Source, weighted by its alpha, plus destination; destination alpha is kept.
    Lighter,
    /// Source times destination.
    Multiply,
    /// The constant color minus the destination, with the source as weight;
    /// destination alpha is kept.
    Invert,
}

/// A clip operation on the stencil buffer, with its reference value.
#[derive(Clone, Copy, Debug, PartialEq, Eq, Structural)]
pub enum Stencil {
    /// Paint the value into the stencil buffer; no color is written.
    Clip(u8),
    /// Draw only where the stencil buffer holds the value.
    Inside(u8),
    /// Draw only where the stencil buffer does not hold the value.
    Outside(u8),
}

/// One of the three aspects of a draw state.
#[derive(Clone, Copy, Debug, PartialEq, Eq, Structural)]
pub enum Aspect {
    Scissor,
    Stencil,
    Blend,
}

/// The render state that a draw call is made under.
#[derive(Clone, Copy, Debug, PartialEq, Eq)]
pub struct DrawState {
    /// `[x, y, width, height]` in pixels, with `(x, y)` the upper left corner
    /// and y growing downwards. `None` switches the scissor test off.
    pub scissor: Option<[u32; 4]>,
    /// `None` switches the stencil test off.
    pub stencil: Option<Stencil>,
    /// `None` switches blending off.
    pub blend: Option<Blend>,
}

/// The part of the frame buffer that is drawn to.
#[derive(Clone, Copy, Debug, PartialEq, Eq)]
pub struct Viewport {
    /// `[x, y, width, height]` in pixels, with `(x, y)` the lower left corner.
    pub rect: [i32; 4],
    /// The size of the frame buffer in pixels.
    pub draw_size: [u32; 2],
}

impl DrawState {
    /// The draw state with everything switched off.
    pub open spec fn disabled() -> DrawState {
        DrawState { scissor: None, stencil: None, blend: None }
    }

    /// Whether both states are the same in every aspect.
    pub fn same(&self, other: &DrawState) -> (r: bool)
        ensures
            r == (*self == *other),
    {
        same_scissor(self.scissor, other.scissor) && self.stencil == other.stencil && self.blend
            == other.blend
    }
}

impl Default for DrawState {
    /// No scissor test, no stencil test, no blending.
    fn default() -> (state: DrawState)
        ensures
            state == DrawState::disabled(),
    {
        DrawState { scissor: None, stencil: None, blend: None }
    }
}

/// Whether two scissor settings are the same.
pub fn same_scissor(a: Option<[u32; 4]>, b: Option<[u32; 4]>) -> (r: bool)
    ensures
        r == (a == b),
{
    match (a, b) {
        (None, None) => true,
        (Some(p), Some(q)) => {
            let r = p[0] == q[0] && p[1] == q[1] && p[2] == q[2] && p[3] == q[3];
            assert(r == (p =~= q));
            r
        },
        _ => false,
    }
}

/// The device's y of the scissor box `r`: the device counts rows from the
/// bottom of the viewport, the rectangle counts them from its top, so the
/// lower edge of the box lies `y + height` rows below the top. Without a
/// viewport the rectangle's own y is used.
pub open spec fn scissor_bottom(r: [u32; 4], viewport: Option<Viewport>) -> int {
    match viewport {
        Some(vp) => vp.rect[3] - (r[1] + r[3]),
        None => r[1] as int,
    }
}

/// Whether the scissor box of `rect` can be written in the device's
/// signed 32-bit coordinates.
pub open spec fn scissor_fits(rect: Option<[u32; 4]>, viewport: Option<Viewport>) -> bool {
    rect matches Some(r) ==> {
        &&& r[0] <= i32::MAX
        &&& r[2] <= i32::MAX
        &&& r[3] <= i32::MAX
        &&& r[1] + r[3] <= i32::MAX
        &&& i32::MIN <= scissor_bottom(r, viewport)
    }
}

/// Whether the scissor box of `rect` can be written in the device's
/// signed 32-bit coordinates. Rectangles that cannot are not for
/// [`bind_scissor`].
pub fn scissor_in_range(rect: Option<[u32; 4]>, viewport: &Option<Viewport>) -> (fits: bool)
    ensures
        fits == scissor_fits(rect, *viewport),
{
    match rect {
        None => true,
        Some(r) => {
            if r[0] > 0x7FFF_FFFF || r[2] > 0x7FFF_FFFF || r[3] > 0x7FFF_FFFF || r[1]
                > 0x7FFF_FFFF - r[3] {
                false
            } else {
                let bottom: i64 = r[1] as i64 + r[3] as i64;
                match viewport {
                    Some(vp) => vp.rect[3] as i64 - bottom >= -0x8000_0000,
                    None => true,
                }
            }
        },
    }
}

/// The commands that establish the scissor setting `rect`.
pub open spec fn scissor_calls(rect: Option<[u32; 4]>, viewport: Option<Viewport>) -> Seq<GlCall> {
    match rect {
        Some(r) => seq![
            GlCall::Enable(gl::SCISSOR_TEST),
            GlCall::Scissor {
                x: r[0] as i32,
                y: scissor_bottom(r, viewport) as i32,
                width: r[2] as i32,
                height: r[3] as i32,
            },
        ],
        None => seq![GlCall::Disable(gl::SCISSOR_TEST)],
    }
}

/// The stencil comparison of a clip operation.
pub open spec fn stencil_func(s: Stencil) -> gl::GLenum {
    match s {
        Stencil::Clip(_) => gl::NEVER,
        Stencil::Inside(_) => gl::EQUAL,
        Stencil::Outside(_) => gl::NOTEQUAL,
    }
}

/// The reference value of a clip operation.
pub open spec fn stencil_value(s: Stencil) -> u8 {
    match s {
        Stencil::Clip(v) => v,
        Stencil::Inside(v) => v,
        Stencil::Outside(v) => v,
    }
}

/// What a clip operation does to the stencil buffer where its comparison
/// fails: `Clip`, whose comparison always fails, writes the reference value;
/// the others write nothing.
pub open spec fn stencil_fail_op(s: Stencil) -> gl::GLenum {
    match s {
        Stencil::Clip(_) => gl::REPLACE,
        _ => gl::KEEP,
    }
}

/// The commands that establish the stencil setting `stencil`. The mask is
/// always `0xFF`.
pub open spec fn stencil_calls(stencil: Option<Stencil>) -> Seq<GlCall> {
    match stencil {
        Some(s) => seq![
            GlCall::Enable(gl::STENCIL_TEST),
            GlCall::StencilFunc {
                func: stencil_func(s),
                reference: stencil_value(s) as i32,
                mask: 255,
            },
            GlCall::StencilMask(255),
            GlCall::StencilOp { fail: stencil_fail_op(s), zfail: gl::KEEP, zpass: gl::KEEP },
        ],
        None => seq![GlCall::Disable(gl::STENCIL_TEST)],
    }
}

/// The blend equations of a blend mode, for color and for alpha.
pub open spec fn blend_equations(b: Blend) -> (gl::GLenum, gl::GLenum) {
    match b {
        Blend::Invert => (gl::FUNC_SUBTRACT, gl::FUNC_ADD),
        _ => (gl::FUNC_ADD, gl::FUNC_ADD),
    }
}

/// The blend factors of a blend mode: source and destination for color, then
/// source and destination for alpha.
pub open spec fn blend_factors(b: Blend) -> (gl::GLenum, gl::GLenum, gl::GLenum, gl::GLenum) {
    match b {
        Blend::Alpha => (
            gl::SRC_ALPHA,
            gl::ONE_MINUS_SRC_ALPHA,
            gl::SRC_ALPHA,
            gl::ONE_MINUS_SRC_ALPHA,
        ),
        Blend::Add => (gl::ONE, gl::ONE, gl::ONE, gl::ONE),
        Blend::Lighter => (gl::SRC_ALPHA, gl::ONE, gl::ZERO, gl::ONE),
        Blend::Multiply => (gl::DST_COLOR, gl::ZERO, gl::DST_ALPHA, gl::ZERO),
        Blend::Invert => (gl::CONSTANT_COLOR, gl::SRC_COLOR, gl::ZERO, gl::ONE),
    }
}

/// The commands that establish the blend setting `blend`. The constant blend
/// color is set to opaque white whenever blending is switched on.
pub open spec fn blend_calls(blend: Option<Blend>) -> Seq<GlCall> {
    match blend {
        Some(b) => seq![
            GlCall::Enable(gl::BLEND),
            GlCall::BlendColor {
                red: gl::ONE_BITS,
                green: gl::ONE_BITS,
                blue: gl::ONE_BITS,
                alpha: gl::ONE_BITS,
            },
            GlCall::BlendEquationSeparate {
                mode_rgb: blend_equations(b).0,
                mode_alpha: blend_equations(b).1,
            },
            GlCall::BlendFuncSeparate {
                sfactor_rgb: blend_factors(b).0,
                dfactor_rgb: blend_factors(b).1,
                sfactor_alpha: blend_factors(b).2,
                dfactor_alpha: blend_factors(b).3,
            },
        ],
        None => seq![GlCall::Disable(gl::BLEND)],
    }
}

/// The commands that establish every aspect of `state`, whatever the device
/// was in before.
pub open spec fn state_calls(state: DrawState, viewport: Option<Viewport>) -> Seq<GlCall> {
    scissor_calls(state.scissor, viewport) + stencil_calls(state.stencil) + blend_calls(
        state.blend,
    )
}

/// The commands that move a device that is in `old_state` to `new_state`:
/// for each aspect in which the two differ, the commands that establish the
/// new setting, and nothing else.
pub open spec fn state_delta(
    old_state: DrawState,
    new_state: DrawState,
    viewport: Option<Viewport>,
) -> Seq<GlCall> {
    (if old_state.scissor != new_state.scissor {
        scissor_calls(new_state.scissor, viewport)
    } else {
        Seq::empty()
    }) + (if old_state.stencil != new_state.stencil {
        stencil_calls(new_state.stencil)
    } else {
        Seq::empty()
    }) + (if old_state.blend != new_state.blend {
        blend_calls(new_state.blend)
    } else {
        Seq::empty()
    })
}

/// Moves the device from `old_state` to `new_state`.
///
/// Only the aspects in which the two differ are set: between the same
/// states nothing is sent, and between states that differ in one aspect
/// only, just the commands of that aspect.
pub fn bind_state(
    dev: &mut Device,
    old_state: &DrawState,
    new_state: &DrawState,
    viewport: &Option<Viewport>,
)
    requires
        old_state.scissor != new_state.scissor ==> scissor_fits(new_state.scissor, *viewport),
    ensures
        final(dev)@ == old(dev)@.followed_by(state_delta(*old_state, *new_state, *viewport)),
        *old_state == *new_state ==> final(dev)@ == old(dev)@,
        only_differs_in(*old_state, *new_state, Aspect::Scissor) ==> final(dev)@ == old(
            dev,
        )@.followed_by(scissor_calls(new_state.scissor, *viewport)),
        only_differs_in(*old_state, *new_state, Aspect::Stencil) ==> final(dev)@ == old(
            dev,
        )@.followed_by(stencil_calls(new_state.stencil)),
        only_differs_in(*old_state, *new_state, Aspect::Blend) ==> final(dev)@ == old(
            dev,
        )@.followed_by(blend_calls(new_state.blend)),
        forall|i: int|
            old(dev)@.calls.len() <= i < final(dev)@.calls.len() ==> (aspect_of(
                #[trigger] final(dev)@.calls[i],
            ) matches Some(aspect) && differ_in(*old_state, *new_state, aspect)),
{
    proof {
        same_state_takes_no_call(*new_state, *viewport);
        delta_of_one_aspect(*old_state, *new_state, *viewport);
        assert forall|i: int|
            0 <= i < state_delta(*old_state, *new_state, *viewport).len() implies (aspect_of(
            #[trigger] state_delta(*old_state, *new_state, *viewport)[i],
        ) matches Some(aspect) && differ_in(*old_state, *new_state, aspect)) by {
            delta_sets_only_what_differs(*old_state, *new_state, *viewport, i);
        }
    }
    if !same_scissor(old_state.scissor, new_state.scissor) {
        bind_scissor(dev, new_state.scissor, viewport);
    }
    if old_state.stencil != new_state.stencil {
        bind_stencil(dev, new_state.stencil);
    }
    if old_state.blend != new_state.blend {
        bind_blend(dev, new_state.blend);
    }
    assert(dev@.calls =~= old(dev)@.calls + state_delta(*old_state, *new_state, *viewport));
}

/// Establishes the scissor setting `rect`.
///
/// With a rectangle `[x, y, w, h]` and a viewport of height `H`, the box
/// that the device is given has the lower left corner `(x, H - (y + h))`.
pub fn bind_scissor(dev: &mut Device, rect: Option<[u32; 4]>, viewport: &Option<Viewport>)
    requires
        scissor_fits(rect, *viewport),
    ensures
        final(dev)@ == old(dev)@.followed_by(scissor_calls(rect, *viewport)),
        rect matches Some(r) ==> viewport matches Some(vp) ==> final(dev)@.calls.last()
            == (GlCall::Scissor {
            x: r[0] as i32,
            y: (vp.rect[3] - (r[1] + r[3])) as i32,
            width: r[2] as i32,
            height: r[3] as i32,
        }),
{
    match rect {
        Some(r) => {
            let yb: i32 = match viewport {
                Some(vp) => vp.rect[3] - ((r[1] + r[3]) as i32),
                None => r[1] as i32,
            };
            gl::Enable(dev, gl::SCISSOR_TEST);
            gl::Scissor(dev, r[0] as gl::GLint, yb, r[2] as gl::GLint, r[3] as gl::GLint);
        },
        None => {
            gl::Disable(dev, gl::SCISSOR_TEST);
        },
    }
    assert(dev@.calls =~= old(dev)@.calls + scissor_calls(rect, *viewport));
}

/// Establishes the stencil setting `stencil`.
pub fn bind_stencil(dev: &mut Device, stencil: Option<Stencil>)
    ensures
        final(dev)@ == old(dev)@.followed_by(stencil_calls(stencil)),
{
    match stencil {
        Some(s) => {
            gl::Enable(dev, gl::STENCIL_TEST);
            match s {
                Stencil::Clip(val) => {
                    gl::StencilFunc(dev, gl::NEVER, val as gl::GLint, 255);
                    gl::StencilMask(dev, 255);
                    gl::StencilOp(dev, gl::REPLACE, gl::KEEP, gl::KEEP);
                },
                Stencil::Inside(val) => {
                    gl::StencilFunc(dev, gl::EQUAL, val as gl::GLint, 255);
                    gl::StencilMask(dev, 255);
                    gl::StencilOp(dev, gl::KEEP, gl::KEEP, gl::KEEP);
                },
                Stencil::Outside(val) => {
                    gl::StencilFunc(dev, gl::NOTEQUAL, val as gl::GLint, 255);
                    gl::StencilMask(dev, 255);
                    gl::StencilOp(dev, gl::KEEP, gl::KEEP, gl::KEEP);
                },
            }
        },
        None => {
            gl::Disable(dev, gl::STENCIL_TEST);
        },
    }
    assert(dev@.calls =~= old(dev)@.calls + stencil_calls(stencil));
}

/// Establishes the blend setting `blend`.
pub fn bind_blend(dev: &mut Device, blend: Option<Blend>)
    ensures
        final(dev)@ == old(dev)@.followed_by(blend_calls(blend)),
{
    match blend {
        Some(b) => {
            gl::Enable(dev, gl::BLEND);
            gl::BlendColor(dev, gl::ONE_BITS, gl::ONE_BITS, gl::ONE_BITS, gl::ONE_BITS);
            match b {
                Blend::Alpha => {
                    gl::BlendEquationSeparate(dev, gl::FUNC_ADD, gl::FUNC_ADD);
                    gl::BlendFuncSeparate(
                        dev,
                        gl::SRC_ALPHA,
                        gl::ONE_MINUS_SRC_ALPHA,
                        gl::SRC_ALPHA,
                        gl::ONE_MINUS_SRC_ALPHA,
                    );
                },
                Blend::Add => {
                    gl::BlendEquationSeparate(dev, gl::FUNC_ADD, gl::FUNC_ADD);
                    gl::BlendFuncSeparate(dev, gl::ONE, gl::ONE, gl::ONE, gl::ONE);
                },
                Blend::Lighter => {
                    gl::BlendEquationSeparate(dev, gl::FUNC_ADD, gl::FUNC_ADD);
                    gl::BlendFuncSeparate(dev, gl::SRC_ALPHA, gl::ONE, gl::ZERO, gl::ONE);
                },
                Blend::Multiply => {
                    gl::BlendEquationSeparate(dev, gl::FUNC_ADD, gl::FUNC_ADD);
                    gl::BlendFuncSeparate(dev, gl::DST_COLOR, gl::ZERO, gl::DST_ALPHA, gl::ZERO);
                },
                Blend::Invert => {
                    gl::BlendEquationSeparate(dev, gl::FUNC_SUBTRACT, gl::FUNC_ADD);
                    gl::BlendFuncSeparate(dev, gl::CONSTANT_COLOR, gl::SRC_COLOR, gl::ZERO, gl::ONE);
                },
            }
        },
        None => {
            gl::Disable(dev, gl::BLEND);
        },
    }
    assert(dev@.calls =~= old(dev)@.calls + blend_calls(blend));
}

/// The aspect of the draw state that a command sets, if it sets any.
pub open spec fn aspect_of(c: GlCall) -> Option<Aspect> {
    match c {
        GlCall::Enable(cap) | GlCall::Disable(cap) => if cap == gl::SCISSOR_TEST {
            Some(Aspect::Scissor)
        } else if cap == gl::STENCIL_TEST {
            Some(Aspect::Stencil)
        } else if cap == gl::BLEND {
            Some(Aspect::Blend)
        } else {
            None
        },
        GlCall::Scissor { .. } => Some(Aspect::Scissor),
        GlCall::StencilFunc { .. } | GlCall::StencilMask(_) | GlCall::StencilOp { .. } => Some(
            Aspect::Stencil,
        ),
        GlCall::BlendColor { .. }
        | GlCall::BlendEquationSeparate { .. }
        | GlCall::BlendFuncSeparate { .. } => Some(Aspect::Blend),
        _ => None,
    }
}

/// Whether two draw states differ in the given aspect and in no other.
pub open spec fn only_differs_in(a: DrawState, b: DrawState, aspect: Aspect) -> bool {
    &&& differ_in(a, b, Aspect::Scissor) == (aspect == Aspect::Scissor)
    &&& differ_in(a, b, Aspect::Stencil) == (aspect == Aspect::Stencil)
    &&& differ_in(a, b, Aspect::Blend) == (aspect == Aspect::Blend)
}

/// Whether two draw states differ in the given aspect.
pub open spec fn differ_in(a: DrawState, b: DrawState, aspect: Aspect) -> bool {
    match aspect {
        Aspect::Scissor => a.scissor != b.scissor,
        Aspect::Stencil => a.stencil != b.stencil,
        Aspect::Blend => a.blend != b.blend,
    }
}

/// Moving from a state to the same state takes no command.
pub proof fn same_state_takes_no_call(state: DrawState, viewport: Option<Viewport>)
    ensures
        state_delta(state, state, viewport) == Seq::<GlCall>::empty(),
{
}

/// Every command of a move sets an aspect in which the two states differ.
pub proof fn delta_sets_only_what_differs(
    old_state: DrawState,
    new_state: DrawState,
    viewport: Option<Viewport>,
    i: int,
)
    requires
        0 <= i < state_delta(old_state, new_state, viewport).len(),
    ensures
        aspect_of(state_delta(old_state, new_state, viewport)[i]) matches Some(aspect)
            && differ_in(old_state, new_state, aspect),
{
}

/// Between two states that differ in one aspect only, the move is exactly
/// the commands that establish the new setting of that aspect.
pub proof fn delta_of_one_aspect(
    old_state: DrawState,
    new_state: DrawState,
    viewport: Option<Viewport>,
)
    ensures
        old_state.stencil == new_state.stencil && old_state.blend == new_state.blend
            && old_state.scissor != new_state.scissor ==> state_delta(
            old_state,
            new_state,
            viewport,
        ) == scissor_calls(new_state.scissor, viewport),
        old_state.scissor == new_state.scissor && old_state.blend == new_state.blend
            && old_state.stencil != new_state.stencil ==> state_delta(
            old_state,
            new_state,
            viewport,
        ) == stencil_calls(new_state.stencil),
        old_state.scissor == new_state.scissor && old_state.stencil == new_state.stencil
            && old_state.blend != new_state.blend ==> state_delta(old_state, new_state, viewport)
            == blend_calls(new_state.blend),
{
}

/// Switching everything off takes the same three commands on a device of
/// which nothing is known as on a device that has scissor, stencil and
/// blending all switched on.
pub proof fn disabling_takes_the_same_calls(old_state: DrawState, viewport: Option<Viewport>)
    requires
        old_state.scissor is Some,
        old_state.stencil is Some,
        old_state.blend is Some,
    ensures
        state_delta(old_state, DrawState::disabled(), viewport) == state_calls(
            DrawState::disabled(),
            viewport,
        ),
        state_calls(DrawState::disabled(), viewport) == seq![
            GlCall::Disable(gl::SCISSOR_TEST),
            GlCall::Disable(gl::STENCIL_TEST),
            GlCall::Disable(gl::BLEND),
        ],
{
}

/// The part of the device's state that the draw state is about.
pub struct RenderState {
    pub scissor_test: bool,
    /// `x`, `y`, width and height of the scissor box.
    pub scissor_box: (int, int, int, int),
    pub stencil_test: bool,
    /// Comparison, reference value and mask of the stencil test.
    pub stencil_func: (gl::GLenum, int, gl::GLuint),
    pub stencil_mask: gl::GLuint,
    /// What happens to the stencil value when the stencil test fails, the
    /// depth test fails, and both pass.
    pub stencil_op: (gl::GLenum, gl::GLenum, gl::GLenum),
    pub blend: bool,
    pub blend_color: (u32, u32, u32, u32),
    /// The equations for color and for alpha.
    pub blend_equations: (gl::GLenum, gl::GLenum),
    /// The factors: source and destination for color, then for alpha.
    pub blend_factors: (gl::GLenum, gl::GLenum, gl::GLenum, gl::GLenum),
}

impl RenderState {
    /// The state after the capability `cap` has been switched on or off.
    pub open spec fn switched(self, cap: gl::GLenum, on: bool) -> RenderState {
        if cap == gl::SCISSOR_TEST {
            RenderState { scissor_test: on, ..self }
        } else if cap == gl::STENCIL_TEST {
            RenderState { stencil_test: on, ..self }
        } else if cap == gl::BLEND {
            RenderState { blend: on, ..self }
        } else {
            self
        }
    }

    /// The state after one command.
    pub open spec fn after(self, c: GlCall) -> RenderState {
        match c {
            GlCall::Enable(cap) => self.switched(cap, true),
            GlCall::Disable(cap) => self.switched(cap, false),
            GlCall::Scissor { x, y, width, height } => RenderState {
                scissor_box: (x as int, y as int, width as int, height as int),
                ..self
            },
            GlCall::StencilFunc { func, reference, mask } => RenderState {
                stencil_func: (func, reference as int, mask),
                ..self
            },
            GlCall::StencilMask(mask) => RenderState { stencil_mask: mask, ..self },
            GlCall::StencilOp { fail, zfail, zpass } => RenderState {
                stencil_op: (fail, zfail, zpass),
                ..self
            },
            GlCall::BlendColor { red, green, blue, alpha } => RenderState {
                blend_color: (red, green, blue, alpha),
                ..self
            },
            GlCall::BlendEquationSeparate { mode_rgb, mode_alpha } => RenderState {
                blend_equations: (mode_rgb, mode_alpha),
                ..self
            },
            GlCall::BlendFuncSeparate { sfactor_rgb, dfactor_rgb, sfactor_alpha, dfactor_alpha } => {
                RenderState {
                    blend_factors: (sfactor_rgb, dfactor_rgb, sfactor_alpha, dfactor_alpha),
                    ..self
                }
            },
            _ => self,
        }
    }

    /// The state after the commands, in order.
    pub open spec fn after_all(self, calls: Seq<GlCall>) -> RenderState
        decreases calls.len(),
    {
        if calls.len() == 0 {
            self
        } else {
            self.after_all(calls.drop_last()).after(calls.last())
        }
    }

    /// Whether the device clips as `rect` asks for.
    pub open spec fn clips(self, rect: Option<[u32; 4]>, viewport: Option<Viewport>) -> bool {
        match rect {
            None => !self.scissor_test,
            Some(r) => self.scissor_test && self.scissor_box == (
                r[0] as int,
                scissor_bottom(r, viewport),
                r[2] as int,
                r[3] as int,
            ),
        }
    }

    /// Whether the device tests against the stencil buffer as `stencil` asks
    /// for.
    pub open spec fn masks(self, stencil: Option<Stencil>) -> bool {
        match stencil {
            None => !self.stencil_test,
            Some(s) => {
                &&& self.stencil_test
                &&& self.stencil_func == (stencil_func(s), stencil_value(s) as int, 255u32)
                &&& self.stencil_mask == 255
                &&& self.stencil_op == (stencil_fail_op(s), gl::KEEP, gl::KEEP)
            },
        }
    }

    /// Whether the device blends as `blend` asks for.
    pub open spec fn blends(self, blend: Option<Blend>) -> bool {
        match blend {
            None => !self.blend,
            Some(b) => {
                &&& self.blend
                &&& self.blend_color == (gl::ONE_BITS, gl::ONE_BITS, gl::ONE_BITS, gl::ONE_BITS)
                &&& self.blend_equations == blend_equations(b)
                &&& self.blend_factors == blend_factors(b)
            },
        }
    }

    /// Whether the device is in the draw state `state`.
    pub open spec fn shows(self, state: DrawState, viewport: Option<Viewport>) -> bool {
        self.clips(state.scissor, viewport) && self.masks(state.stencil) && self.blends(
            state.blend,
        )
    }
}

/// The commands of two runs have the effect of the first run followed by
/// that of the second.
pub proof fn after_two_runs(r: RenderState, a: Seq<GlCall>, b: Seq<GlCall>)
    ensures
        r.after_all(a + b) == r.after_all(a).after_all(b),
    decreases b.len(),
{
    if b.len() > 0 {
        assert((a + b).drop_last() =~= a + b.drop_last());
        after_two_runs(r, a, b.drop_last());
    }
}

/// The commands of the scissor setting make the device clip as asked, and
/// leave stencil and blending alone.
pub proof fn scissor_calls_take_effect(
    r: RenderState,
    rect: Option<[u32; 4]>,
    viewport: Option<Viewport>,
    stencil: Option<Stencil>,
    blend: Option<Blend>,
)
    requires
        scissor_fits(rect, viewport),
    ensures
        r.after_all(scissor_calls(rect, viewport)).clips(rect, viewport),
        r.masks(stencil) ==> r.after_all(scissor_calls(rect, viewport)).masks(stencil),
        r.blends(blend) ==> r.after_all(scissor_calls(rect, viewport)).blends(blend),
{
    reveal_with_fuel(RenderState::after_all, 3);
}

/// The commands of the stencil setting make the device test as asked, and
/// leave scissor and blending alone.
pub proof fn stencil_calls_take_effect(
    r: RenderState,
    stencil: Option<Stencil>,
    rect: Option<[u32; 4]>,
    viewport: Option<Viewport>,
    blend: Option<Blend>,
)
    ensures
        r.after_all(stencil_calls(stencil)).masks(stencil),
        r.clips(rect, viewport) ==> r.after_all(stencil_calls(stencil)).clips(rect, viewport),
        r.blends(blend) ==> r.after_all(stencil_calls(stencil)).blends(blend),
{
    reveal_with_fuel(RenderState::after_all, 5);
}

/// The commands of the blend setting make the device blend as asked, and
/// leave scissor and stencil alone.
pub proof fn blend_calls_take_effect(
    r: RenderState,
    blend: Option<Blend>,
    rect: Option<[u32; 4]>,
    viewport: Option<Viewport>,
    stencil: Option<Stencil>,
)
    ensures
        r.after_all(blend_calls(blend)).blends(blend),
        r.clips(rect, viewport) ==> r.after_all(blend_calls(blend)).clips(rect, viewport),
        r.masks(stencil) ==> r.after_all(blend_calls(blend)).masks(stencil),
{
    reveal_with_fuel(RenderState::after_all, 5);
}

/// Whatever state the device is in, the commands that establish every
/// aspect of a draw state bring the device into that draw state.
pub proof fn state_calls_establish(r: RenderState, state: DrawState, viewport: Option<Viewport>)
    requires
        scissor_fits(state.scissor, viewport),
    ensures
        r.after_all(state_calls(state, viewport)).shows(state, viewport),
{
    let a = scissor_calls(state.scissor, viewport);
    let b = stencil_calls(state.stencil);
    let c = blend_calls(state.blend);
    after_two_runs(r, a + b, c);
    after_two_runs(r, a, b);
    let r1 = r.after_all(a);
    let r2 = r1.after_all(b);
    scissor_calls_take_effect(r, state.scissor, viewport, None, None);
    stencil_calls_take_effect(r1, state.stencil, state.scissor, viewport, None);
    blend_calls_take_effect(r2, state.blend, state.scissor, viewport, state.stencil);
}

/// The commands of a move bring a device that is in the old draw state
/// into the new one.
pub proof fn state_delta_moves(
    r: RenderState,
    old_state: DrawState,
    new_state: DrawState,
    viewport: Option<Viewport>,
)
    requires
        r.shows(old_state, viewport),
        old_state.scissor != new_state.scissor ==> scissor_fits(new_state.scissor, viewport),
    ensures
        r.after_all(state_delta(old_state, new_state, viewport)).shows(new_state, viewport),
{
    let none = Seq::<GlCall>::empty();
    let a = if old_state.scissor != new_state.scissor {
        scissor_calls(new_state.scissor, viewport)
    } else {
        none
    };
    let b = if old_state.stencil != new_state.stencil {
        stencil_calls(new_state.stencil)
    } else {
        none
    };
    let c = if old_state.blend != new_state.blend {
        blend_calls(new_state.blend)
    } else {
        none
    };
    after_two_runs(r, a + b, c);
    after_two_runs(r, a, b);
    let r1 = r.after_all(a);
    let r2 = r1.after_all(b);
    if old_state.scissor != new_state.scissor {
        scissor_calls_take_effect(
            r,
            new_state.scissor,
            viewport,
            old_state.stencil,
            old_state.blend,
        );
    }
    if old_state.stencil != new_state.stencil {
        stencil_calls_take_effect(
            r1,
            new_state.stencil,
            new_state.scissor,
            viewport,
            old_state.blend,
        );
    }
    if old_state.blend != new_state.blend {
        blend_calls_take_effect(
            r2,
            new_state.blend,
            new_state.scissor,
            viewport,
            new_state.stencil,
        );
    }
}

} // verus!
