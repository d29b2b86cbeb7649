//! The shader sources that the back end comes with.
//!
//! The texts are those of the shader crate. They are stated here, so that
//! it is known what is compiled, and read from the crate when a program is
//! built.

use vstd::prelude::*;
use vstd::utf8::{encode_utf8, is_ascii_chars, is_ascii_chars_encode_utf8};
use shaders_graphics2d::{colored, textured};
use crate::shader_utils::nul_free;

verus! {

/// The source of one stage of one program in one dialect: of the textured
/// program or else the colored one, of the fragment stage or else the
/// vertex stage, in GLSL 1.50 core or else in GLSL 1.20.
pub open spec fn source_text(textured: bool, fragment: bool, core: bool) -> Seq<char> {
    match (textured, fragment, core) {
        (false, false, false) => "#version 120\nattribute vec4 color;\nattribute vec2 pos;\n\nvarying vec4 v_Color;\n\nvoid main() {\n    v_Color = color;\n    gl_Position = vec4(pos, 0.0, 1.0);\n}\n"@,
        (false, false, true) => "#version 150 core\nin vec4 color;\nin vec2 pos;\n\nout vec4 v_Color;\n\nvoid main() {\n    v_Color = color;\n    gl_Position = vec4(pos, 0.0, 1.0);\n}\n"@,
        (false, true, false) => "#version 120\nvarying vec4 v_Color;\n\nvoid main() {\n    gl_FragColor = v_Color;\n}\n"@,
        (false, true, true) => "#version 150 core\nin vec4 v_Color;\n\nout vec4 o_Color;\n\nvoid main() {\n    o_Color = v_Color;\n}\n"@,
        (true, false, false) => "#version 120\nuniform sampler2D s_texture;\nuniform vec4 color;\n\nattribute vec2 pos;\nattribute vec2 uv;\n\nvarying vec2 v_UV;\n\nvoid main() {\n    v_UV = uv;\n    gl_Position = vec4(pos, 0.0, 1.0);\n}\n"@,
        (true, false, true) => "#version 150 core\nuniform sampler2D s_texture;\nuniform vec4 color;\n\nin vec2 pos;\nin vec2 uv;\n\nout vec2 v_UV;\n\nvoid main() {\n    v_UV = uv;\n    gl_Position = vec4(pos, 0.0, 1.0);\n}\n"@,
        (true, true, false) => "#version 120\nuniform sampler2D s_texture;\nuniform vec4 color;\n\nvarying vec2 v_UV;\n\nvoid main()\n{\n    gl_FragColor = texture2D(s_texture, v_UV) * color;\n}\n"@,
        (true, true, true) => "#version 150 core\nuniform sampler2D s_texture;\nuniform vec4 color;\n\nin vec2 v_UV;\n\nout vec4 o_Color;\n\nvoid main()\n{\n    o_Color = texture(s_texture, v_UV) * color;\n}\n"@,
    }
}

/// Whether the text is plain: every character is an ASCII character other
/// than the zero character.
pub open spec fn plain(text: Seq<char>) -> bool {
    forall|i: int| 0 <= i < text.len() ==> '\u{1}' <= #[trigger] text[i] <= '\u{7f}'
}

/// A plain text is encoded without a zero byte, so that it can be handed
/// to the device.
pub proof fn plain_text_has_no_zero_byte(text: Seq<char>)
    requires
        plain(text),
    ensures
        nul_free(encode_utf8(text)),
{
    assert(is_ascii_chars(text));
    is_ascii_chars_encode_utf8(text);
    assert forall|j: int| 0 <= j < encode_utf8(text).len() implies encode_utf8(text)[j] != 0 by {
        assert(text[j] as u8 == encode_utf8(text)[j]);
    }
}

/// The vertex source of the colored program in GLSL 1.20 is plain.
proof fn colored_vertex_120_is_plain()
    ensures
        plain(source_text(false, false, false)),
{
    reveal_strlit("#version 120\nattribute vec4 color;\nattribute vec2 pos;\n\nvarying vec4 v_Color;\n\nvoid main() {\n    v_Color = color;\n    gl_Position = vec4(pos, 0.0, 1.0);\n}\n");
}

/// The vertex source of the colored program in GLSL 1.50 core is plain.
proof fn colored_vertex_150_is_plain()
    ensures
        plain(source_text(false, false, true)),
{
    reveal_strlit("#version 150 core\nin vec4 color;\nin vec2 pos;\n\nout vec4 v_Color;\n\nvoid main() {\n    v_Color = color;\n    gl_Position = vec4(pos, 0.0, 1.0);\n}\n");
}

/// The fragment source of the colored program in GLSL 1.20 is plain.
proof fn colored_fragment_120_is_plain()
    ensures
        plain(source_text(false, true, false)),
{
    reveal_strlit("#version 120\nvarying vec4 v_Color;\n\nvoid main() {\n    gl_FragColor = v_Color;\n}\n");
}

/// The fragment source of the colored program in GLSL 1.50 core is plain.
proof fn colored_fragment_150_is_plain()
    ensures
        plain(source_text(false, true, true)),
{
    reveal_strlit("#version 150 core\nin vec4 v_Color;\n\nout vec4 o_Color;\n\nvoid main() {\n    o_Color = v_Color;\n}\n");
}

/// The vertex source of the textured program in GLSL 1.20 is plain.
proof fn textured_vertex_120_is_plain()
    ensures
        plain(source_text(true, false, false)),
{
    reveal_strlit("#version 120\nuniform sampler2D s_texture;\nuniform vec4 color;\n\nattribute vec2 pos;\nattribute vec2 uv;\n\nvarying vec2 v_UV;\n\nvoid main() {\n    v_UV = uv;\n    gl_Position = vec4(pos, 0.0, 1.0);\n}\n");
}

/// The vertex source of the textured program in GLSL 1.50 core is plain.
proof fn textured_vertex_150_is_plain()
    ensures
        plain(source_text(true, false, true)),
{
    reveal_strlit("#version 150 core\nuniform sampler2D s_texture;\nuniform vec4 color;\n\nin vec2 pos;\nin vec2 uv;\n\nout vec2 v_UV;\n\nvoid main() {\n    v_UV = uv;\n    gl_Position = vec4(pos, 0.0, 1.0);\n}\n");
}

/// The fragment source of the textured program in GLSL 1.20 is plain.
proof fn textured_fragment_120_is_plain()
    ensures
        plain(source_text(true, true, false)),
{
    reveal_strlit("#version 120\nuniform sampler2D s_texture;\nuniform vec4 color;\n\nvarying vec2 v_UV;\n\nvoid main()\n{\n    gl_FragColor = texture2D(s_texture, v_UV) * color;\n}\n");
}

/// The fragment source of the textured program in GLSL 1.50 core is plain.
proof fn textured_fragment_150_is_plain()
    ensures
        plain(source_text(true, true, true)),
{
    reveal_strlit("#version 150 core\nuniform sampler2D s_texture;\nuniform vec4 color;\n\nin vec2 v_UV;\n\nout vec4 o_Color;\n\nvoid main()\n{\n    o_Color = texture(s_texture, v_UV) * color;\n}\n");
}

/// Every source that the back end comes with is plain.
pub proof fn sources_are_plain(textured: bool, fragment: bool, core: bool)
    ensures
        plain(source_text(textured, fragment, core)),
        nul_free(encode_utf8(source_text(textured, fragment, core))),
{
    colored_vertex_120_is_plain();
    colored_vertex_150_is_plain();
    colored_fragment_120_is_plain();
    colored_fragment_150_is_plain();
    textured_vertex_120_is_plain();
    textured_vertex_150_is_plain();
    textured_fragment_120_is_plain();
    textured_fragment_150_is_plain();
    plain_text_has_no_zero_byte(source_text(textured, fragment, core));
}

/// The text of `shaders_graphics2d::colored::VERTEX_GLSL_120`.
#[verifier::external_body]
pub(crate) fn colored_vertex_120() -> (source: &'static str)
    ensures
        source@ == "#version 120\nattribute vec4 color;\nattribute vec2 pos;\n\nvarying vec4 v_Color;\n\nvoid main() {\n    v_Color = color;\n    gl_Position = vec4(pos, 0.0, 1.0);\n}\n"@,
{
    std::str::from_utf8(colored::VERTEX_GLSL_120).unwrap_or_default()
}

/// The text of `shaders_graphics2d::colored::VERTEX_GLSL_150_CORE`.
#[verifier::external_body]
pub(crate) fn colored_vertex_150() -> (source: &'static str)
    ensures
        source@ == "#version 150 core\nin vec4 color;\nin vec2 pos;\n\nout vec4 v_Color;\n\nvoid main() {\n    v_Color = color;\n    gl_Position = vec4(pos, 0.0, 1.0);\n}\n"@,
{
    std::str::from_utf8(colored::VERTEX_GLSL_150_CORE).unwrap_or_default()
}

/// The text of `shaders_graphics2d::colored::FRAGMENT_GLSL_120`.
#[verifier::external_body]
pub(crate) fn colored_fragment_120() -> (source: &'static str)
    ensures
        source@ == "#version 120\nvarying vec4 v_Color;\n\nvoid main() {\n    gl_FragColor = v_Color;\n}\n"@,
{
    std::str::from_utf8(colored::FRAGMENT_GLSL_120).unwrap_or_default()
}

/// The text of `shaders_graphics2d::colored::FRAGMENT_GLSL_150_CORE`.
#[verifier::external_body]
pub(crate) fn colored_fragment_150() -> (source: &'static str)
    ensures
        source@ == "#version 150 core\nin vec4 v_Color;\n\nout vec4 o_Color;\n\nvoid main() {\n    o_Color = v_Color;\n}\n"@,
{
    std::str::from_utf8(colored::FRAGMENT_GLSL_150_CORE).unwrap_or_default()
}

/// The text of `shaders_graphics2d::textured::VERTEX_GLSL_120`.
#[verifier::external_body]
pub(crate) fn textured_vertex_120() -> (source: &'static str)
    ensures
        source@ == "#version 120\nuniform sampler2D s_texture;\nuniform vec4 color;\n\nattribute vec2 pos;\nattribute vec2 uv;\n\nvarying vec2 v_UV;\n\nvoid main() {\n    v_UV = uv;\n    gl_Position = vec4(pos, 0.0, 1.0);\n}\n"@,
{
    std::str::from_utf8(textured::VERTEX_GLSL_120).unwrap_or_default()
}

/// The text of `shaders_graphics2d::textured::VERTEX_GLSL_150_CORE`.
#[verifier::external_body]
pub(crate) fn textured_vertex_150() -> (source: &'static str)
    ensures
        source@ == "#version 150 core\nuniform sampler2D s_texture;\nuniform vec4 color;\n\nin vec2 pos;\nin vec2 uv;\n\nout vec2 v_UV;\n\nvoid main() {\n    v_UV = uv;\n    gl_Position = vec4(pos, 0.0, 1.0);\n}\n"@,
{
    std::str::from_utf8(textured::VERTEX_GLSL_150_CORE).unwrap_or_default()
}

/// The text of `shaders_graphics2d::textured::FRAGMENT_GLSL_120`.
#[verifier::external_body]
pub(crate) fn textured_fragment_120() -> (source: &'static str)
    ensures
        source@ == "#version 120\nuniform sampler2D s_texture;\nuniform vec4 color;\n\nvarying vec2 v_UV;\n\nvoid main()\n{\n    gl_FragColor = texture2D(s_texture, v_UV) * color;\n}\n"@,
{
    std::str::from_utf8(textured::FRAGMENT_GLSL_120).unwrap_or_default()
}

/// The text of `shaders_graphics2d::textured::FRAGMENT_GLSL_150_CORE`.
#[verifier::external_body]
pub(crate) fn textured_fragment_150() -> (source: &'static str)
    ensures
        source@ == "#version 150 core\nuniform sampler2D s_texture;\nuniform vec4 color;\n\nin vec2 v_UV;\n\nout vec4 o_Color;\n\nvoid main()\n{\n    o_Color = texture(s_texture, v_UV) * color;\n}\n"@,
{
    std::str::from_utf8(textured::FRAGMENT_GLSL_150_CORE).unwrap_or_default()
}

} // verus!
