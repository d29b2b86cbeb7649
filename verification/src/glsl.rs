//! Versions of OpenGL and of its shading language, and the choice of a
//! shader source by version.

use vstd::prelude::*;
use shader_version::glsl::GLSL;
use shader_version::Shaders;

verus! {

/// A version of OpenGL.
#[allow(non_camel_case_types)]
#[derive(Clone, Copy, Debug, PartialEq, Eq, Structural)]
pub enum OpenGl {
    V2_0,
    V2_1,
    V3_0,
    V3_1,
    V3_2,
    V3_3,
    V4_0,
    V4_1,
    V4_2,
    V4_3,
    V4_4,
    V4_5,
}

impl OpenGl {
    /// The place of the version among all versions, oldest first.
    pub open spec fn rank(self) -> int {
        match self {
            OpenGl::V2_0 => 0,
            OpenGl::V2_1 => 1,
            OpenGl::V3_0 => 2,
            OpenGl::V3_1 => 3,
            OpenGl::V3_2 => 4,
            OpenGl::V3_3 => 5,
            OpenGl::V4_0 => 6,
            OpenGl::V4_1 => 7,
            OpenGl::V4_2 => 8,
            OpenGl::V4_3 => 9,
            OpenGl::V4_4 => 10,
            OpenGl::V4_5 => 11,
        }
    }

    /// The version of the shading language that came with the version.
    pub open spec fn glsl(self) -> Glsl {
        match self {
            OpenGl::V2_0 => Glsl::V1_10,
            OpenGl::V2_1 => Glsl::V1_20,
            OpenGl::V3_0 => Glsl::V1_30,
            OpenGl::V3_1 => Glsl::V1_40,
            OpenGl::V3_2 => Glsl::V1_50,
            OpenGl::V3_3 => Glsl::V3_30,
            OpenGl::V4_0 => Glsl::V4_00,
            OpenGl::V4_1 => Glsl::V4_10,
            OpenGl::V4_2 => Glsl::V4_20,
            OpenGl::V4_3 => Glsl::V4_30,
            OpenGl::V4_4 => Glsl::V4_40,
            OpenGl::V4_5 => Glsl::V4_50,
        }
    }

    /// Gets GLSL version associated with OpenGL: each version of OpenGL
    /// came with one of the shading language, in the same order.
    pub fn to_glsl(&self) -> (glsl: Glsl)
        ensures
            glsl == self.glsl(),
            glsl.rank() == self.rank(),
    {
        match *self {
            OpenGl::V2_0 => Glsl::V1_10,
            OpenGl::V2_1 => Glsl::V1_20,
            OpenGl::V3_0 => Glsl::V1_30,
            OpenGl::V3_1 => Glsl::V1_40,
            OpenGl::V3_2 => Glsl::V1_50,
            OpenGl::V3_3 => Glsl::V3_30,
            OpenGl::V4_0 => Glsl::V4_00,
            OpenGl::V4_1 => Glsl::V4_10,
            OpenGl::V4_2 => Glsl::V4_20,
            OpenGl::V4_3 => Glsl::V4_30,
            OpenGl::V4_4 => Glsl::V4_40,
            OpenGl::V4_5 => Glsl::V4_50,
        }
    }
}

/// A version of the OpenGL shading language.
#[allow(non_camel_case_types)]
#[derive(Clone, Copy, Debug, PartialEq, Eq, Structural)]
pub enum Glsl {
    V1_10,
    V1_20,
    V1_30,
    V1_40,
    V1_50,
    V3_30,
    V4_00,
    V4_10,
    V4_20,
    V4_30,
    V4_40,
    V4_50,
}

impl Glsl {
    /// The place of the version among all versions, oldest first.
    pub open spec fn rank(self) -> int {
        match self {
            Glsl::V1_10 => 0,
            Glsl::V1_20 => 1,
            Glsl::V1_30 => 2,
            Glsl::V1_40 => 3,
            Glsl::V1_50 => 4,
            Glsl::V3_30 => 5,
            Glsl::V4_00 => 6,
            Glsl::V4_10 => 7,
            Glsl::V4_20 => 8,
            Glsl::V4_30 => 9,
            Glsl::V4_40 => 10,
            Glsl::V4_50 => 11,
        }
    }
}

/// `GLSL` of the shader version crate, of which nothing is known here.
#[verifier::external_type_specification]
#[verifier::external_body]
pub struct ExGlsl(GLSL);

/// `Shaders` of the shader version crate: a picker of shader sources by
/// version. What it holds is told by [`registered`].
#[verifier::external_type_specification]
#[verifier::external_body]
#[verifier::reject_recursive_types(V)]
#[verifier::reject_recursive_types(S)]
pub struct ExShaders<'a, V, S: 'a + ?Sized>(Shaders<'a, V, S>);

/// The sources that a picker holds, by the rank of the version that each
/// was registered for.
pub uninterp spec fn registered(shaders: Shaders<GLSL, str>) -> Map<int, Seq<char>>;

/// The table of a picker that holds no source.
pub open spec fn nothing_registered() -> Map<int, Seq<char>> {
    Map::empty()
}

/// The source that is picked from `table` for the version of rank `rank`,
/// looking downwards from `rank` and not below `low`.
pub open spec fn picked_from(table: Map<int, Seq<char>>, low: int, rank: int) -> Option<Seq<char>>
    decreases rank - low + 1,
{
    if rank < low {
        None
    } else if table.contains_key(rank) {
        Some(table[rank])
    } else {
        picked_from(table, low, rank - 1)
    }
}

/// The source that is picked from `table` for `version`: that of the
/// newest registered version that is not newer than `version`. A version
/// from 1.50 on is never served by a source from before 1.50.
pub open spec fn picked(table: Map<int, Seq<char>>, version: Glsl) -> Option<Seq<char>> {
    picked_from(table, if version.rank() < 4 { 0 } else { 4 }, version.rank())
}

/// `Shaders::new` of the shader version crate: a picker that holds nothing.
#[verifier::external_body]
pub(crate) fn shaders_new<'a>() -> (picker: Shaders<'a, GLSL, str>)
    ensures
        registered(picker) == nothing_registered(),
{
    Shaders::new()
}

/// `Shaders::set` of the shader version crate: registers `source` for
/// `version`, in place of what was registered for it before. The version
/// is handed over as the crate's variant of the same name.
#[verifier::external_body]
pub(crate) fn shaders_set<'a>(
    shaders: &mut Shaders<'a, GLSL, str>,
    version: Glsl,
    source: &'a str,
)
    ensures
        registered(*final(shaders)) == registered(*old(shaders)).insert(version.rank(), source@),
{
    let key = match version {
        Glsl::V1_10 => GLSL::V1_10, Glsl::V1_20 => GLSL::V1_20, Glsl::V1_30 => GLSL::V1_30,
        Glsl::V1_40 => GLSL::V1_40, Glsl::V1_50 => GLSL::V1_50, Glsl::V3_30 => GLSL::V3_30,
        Glsl::V4_00 => GLSL::V4_00, Glsl::V4_10 => GLSL::V4_10, Glsl::V4_20 => GLSL::V4_20,
        Glsl::V4_30 => GLSL::V4_30, Glsl::V4_40 => GLSL::V4_40, Glsl::V4_50 => GLSL::V4_50,
    };
    shaders.set(key, source);
}

/// `Shaders::get` of the shader version crate: the closest source for
/// `version`, which is handed over as the crate's variant of the same name.
/// The crate walks its sources from the oldest version to the newest,
/// skips those from before 1.50 where `version` is 1.50 or newer, and
/// returns the last one that is not newer than `version`.
#[verifier::external_body]
pub(crate) fn shaders_get<'a>(
    shaders: &'a Shaders<'a, GLSL, str>,
    version: Glsl,
) -> (source: Option<&'a str>)
    ensures
        match source {
            Some(s) => picked(registered(*shaders), version) == Some(s@),
            None => picked(registered(*shaders), version) is None,
        },
{
    let key = match version {
        Glsl::V1_10 => GLSL::V1_10, Glsl::V1_20 => GLSL::V1_20, Glsl::V1_30 => GLSL::V1_30,
        Glsl::V1_40 => GLSL::V1_40, Glsl::V1_50 => GLSL::V1_50, Glsl::V3_30 => GLSL::V3_30,
        Glsl::V4_00 => GLSL::V4_00, Glsl::V4_10 => GLSL::V4_10, Glsl::V4_20 => GLSL::V4_20,
        Glsl::V4_30 => GLSL::V4_30, Glsl::V4_40 => GLSL::V4_40, Glsl::V4_50 => GLSL::V4_50,
    };
    shaders.get(key)
}

/// What is picked from a table that holds one source for 1.20 and one for
/// 1.50: nothing for 1.10, the first up to 1.40, the second from 1.50 on.
pub proof fn picked_of_two(table: Map<int, Seq<char>>, version: Glsl)
    requires
        table.dom() == set![1int, 4int],
    ensures
        version.rank() < 1 ==> picked(table, version) is None,
        1 <= version.rank() < 4 ==> picked(table, version) == Some(table[1]),
        4 <= version.rank() ==> picked(table, version) == Some(table[4]),
{
    reveal_with_fuel(picked_from, 9);
}

} // verus!
