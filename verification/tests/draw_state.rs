use opengl_graphics::draw_state::{
    bind_blend, bind_scissor, bind_state, bind_stencil, scissor_in_range, Blend, DrawState,
    Stencil, Viewport,
};
use opengl_graphics::gl;
use opengl_graphics::gl::{Device, GlCall};

fn viewport(width: i32, height: i32) -> Option<Viewport> {
    Some(Viewport { rect: [0, 0, width, height], draw_size: [width as u32, height as u32] })
}

#[test]
fn scissor_is_flipped_against_the_viewport_height() {
    let mut dev = Device::new();
    bind_scissor(&mut dev, Some([100, 100, 100, 100]), &viewport(640, 480));
    assert_eq!(
        dev.calls(),
        &vec![
            GlCall::Enable(gl::SCISSOR_TEST),
            GlCall::Scissor { x: 100, y: 280, width: 100, height: 100 },
        ]
    );
}

#[test]
fn scissor_without_viewport_keeps_its_y() {
    let mut dev = Device::new();
    bind_scissor(&mut dev, Some([1, 2, 3, 4]), &None);
    assert_eq!(
        dev.calls(),
        &vec![GlCall::Enable(gl::SCISSOR_TEST), GlCall::Scissor { x: 1, y: 2, width: 3, height: 4 }]
    );
}

#[test]
fn no_scissor_disables_the_test() {
    let mut dev = Device::new();
    bind_scissor(&mut dev, None, &viewport(640, 480));
    assert_eq!(dev.calls(), &vec![GlCall::Disable(gl::SCISSOR_TEST)]);
}

#[test]
fn clip_writes_its_value_everywhere() {
    let mut dev = Device::new();
    bind_stencil(&mut dev, Some(Stencil::Clip(7)));
    assert_eq!(
        dev.calls(),
        &vec![
            GlCall::Enable(gl::STENCIL_TEST),
            GlCall::StencilFunc { func: gl::NEVER, reference: 7, mask: 255 },
            GlCall::StencilMask(255),
            GlCall::StencilOp { fail: gl::REPLACE, zfail: gl::KEEP, zpass: gl::KEEP },
        ]
    );
}

#[test]
fn inside_and_outside_compare_and_keep() {
    let mut dev = Device::new();
    bind_stencil(&mut dev, Some(Stencil::Inside(255)));
    bind_stencil(&mut dev, Some(Stencil::Outside(3)));
    bind_stencil(&mut dev, None);
    assert_eq!(
        dev.calls(),
        &vec![
            GlCall::Enable(gl::STENCIL_TEST),
            GlCall::StencilFunc { func: gl::EQUAL, reference: 255, mask: 255 },
            GlCall::StencilMask(255),
            GlCall::StencilOp { fail: gl::KEEP, zfail: gl::KEEP, zpass: gl::KEEP },
            GlCall::Enable(gl::STENCIL_TEST),
            GlCall::StencilFunc { func: gl::NOTEQUAL, reference: 3, mask: 255 },
            GlCall::StencilMask(255),
            GlCall::StencilOp { fail: gl::KEEP, zfail: gl::KEEP, zpass: gl::KEEP },
            GlCall::Disable(gl::STENCIL_TEST),
        ]
    );
}

fn blend_calls(equations: (u32, u32), factors: (u32, u32, u32, u32)) -> Vec<GlCall> {
    vec![
        GlCall::Enable(gl::BLEND),
        GlCall::BlendColor {
            red: 1.0f32.to_bits(),
            green: 1.0f32.to_bits(),
            blue: 1.0f32.to_bits(),
            alpha: 1.0f32.to_bits(),
        },
        GlCall::BlendEquationSeparate { mode_rgb: equations.0, mode_alpha: equations.1 },
        GlCall::BlendFuncSeparate {
            sfactor_rgb: factors.0,
            dfactor_rgb: factors.1,
            sfactor_alpha: factors.2,
            dfactor_alpha: factors.3,
        },
    ]
}

#[test]
fn each_blend_mode_has_its_equations_and_factors() {
    let add = (gl::FUNC_ADD, gl::FUNC_ADD);
    let cases = [
        (
            Blend::Alpha,
            add,
            (gl::SRC_ALPHA, gl::ONE_MINUS_SRC_ALPHA, gl::SRC_ALPHA, gl::ONE_MINUS_SRC_ALPHA),
        ),
        (Blend::Add, add, (gl::ONE, gl::ONE, gl::ONE, gl::ONE)),
        (Blend::Lighter, add, (gl::SRC_ALPHA, gl::ONE, gl::ZERO, gl::ONE)),
        (Blend::Multiply, add, (gl::DST_COLOR, gl::ZERO, gl::DST_ALPHA, gl::ZERO)),
        (
            Blend::Invert,
            (gl::FUNC_SUBTRACT, gl::FUNC_ADD),
            (gl::CONSTANT_COLOR, gl::SRC_COLOR, gl::ZERO, gl::ONE),
        ),
    ];
    for (blend, equations, factors) in cases {
        let mut dev = Device::new();
        bind_blend(&mut dev, Some(blend));
        assert_eq!(dev.calls(), &blend_calls(equations, factors));
    }
    let mut dev = Device::new();
    bind_blend(&mut dev, None);
    assert_eq!(dev.calls(), &vec![GlCall::Disable(gl::BLEND)]);
}

#[test]
fn default_state_switches_everything_off() {
    let state = DrawState::default();
    assert_eq!(state, DrawState { scissor: None, stencil: None, blend: None });
}

#[test]
fn same_state_takes_no_call() {
    let state = DrawState {
        scissor: Some([1, 2, 3, 4]),
        stencil: Some(Stencil::Inside(1)),
        blend: Some(Blend::Add),
    };
    let mut dev = Device::new();
    bind_state(&mut dev, &state, &state, &viewport(640, 480));
    assert!(dev.calls().is_empty());
}

#[test]
fn only_the_aspect_that_differs_is_set() {
    let old = DrawState { scissor: None, stencil: None, blend: Some(Blend::Alpha) };
    let vp = viewport(640, 480);

    let mut dev = Device::new();
    bind_state(&mut dev, &old, &DrawState { blend: Some(Blend::Add), ..old }, &vp);
    assert_eq!(dev.calls(), &blend_calls((gl::FUNC_ADD, gl::FUNC_ADD), (1, 1, 1, 1)));

    let mut dev = Device::new();
    bind_state(&mut dev, &old, &DrawState { stencil: Some(Stencil::Clip(1)), ..old }, &vp);
    assert_eq!(dev.calls().len(), 4);
    assert_eq!(dev.calls()[0], GlCall::Enable(gl::STENCIL_TEST));

    let mut dev = Device::new();
    bind_state(&mut dev, &old, &DrawState { scissor: Some([0, 0, 10, 10]), ..old }, &vp);
    assert_eq!(
        dev.calls(),
        &vec![
            GlCall::Enable(gl::SCISSOR_TEST),
            GlCall::Scissor { x: 0, y: 470, width: 10, height: 10 },
        ]
    );
}

#[test]
fn disabling_after_everything_was_on() {
    let old = DrawState {
        scissor: Some([1, 2, 3, 4]),
        stencil: Some(Stencil::Outside(9)),
        blend: Some(Blend::Invert),
    };
    let mut dev = Device::new();
    bind_state(&mut dev, &old, &DrawState::default(), &viewport(640, 480));
    assert_eq!(
        dev.calls(),
        &vec![
            GlCall::Disable(gl::SCISSOR_TEST),
            GlCall::Disable(gl::STENCIL_TEST),
            GlCall::Disable(gl::BLEND),
        ]
    );
}

#[test]
fn scissor_boxes_beyond_the_device_range_are_told_apart() {
    let vp = viewport(640, 480);
    let max = i32::MAX as u32;
    assert!(scissor_in_range(None, &vp));
    assert!(scissor_in_range(Some([0, 0, 0, 0]), &vp));
    assert!(scissor_in_range(Some([max, 0, max, max]), &vp));
    assert!(scissor_in_range(Some([0, max, 0, 0]), &None));
    assert!(!scissor_in_range(Some([max + 1, 0, 0, 0]), &vp));
    assert!(!scissor_in_range(Some([0, 0, max + 1, 0]), &vp));
    assert!(!scissor_in_range(Some([0, 0, 0, max + 1]), &vp));
    assert!(!scissor_in_range(Some([0, 1, 0, max]), &vp));
    assert!(!scissor_in_range(Some([0, 1, 0, max]), &None));
    // The lower edge may lie below the viewport, but not below the range.
    assert!(scissor_in_range(Some([0, 400, 10, 200]), &vp));
    assert!(scissor_in_range(Some([0, 0, 0, max]), &viewport(0, -1)));
    assert!(!scissor_in_range(Some([0, 0, 0, max]), &viewport(0, -2)));
}
