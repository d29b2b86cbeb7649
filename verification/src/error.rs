//! Errors.

use vstd::prelude::*;
use vstd::std_specs::convert::FromSpecImpl;

verus! {

/// `std::io::Error`, of which nothing is known here.
#[verifier::external_type_specification]
#[verifier::external_body]
pub struct ExIoError(std::io::Error);

/// An enum to represent various possible run-time errors that may occur.
#[derive(Debug)]
pub enum Error {
    /// An error happened with I/O.
    IoError(std::io::Error),
}

impl From<std::io::Error> for Error {
    fn from(err: std::io::Error) -> (e: Error) {
        Error::IoError(err)
    }
}

impl FromSpecImpl<std::io::Error> for Error {
    open spec fn obeys_from_spec() -> bool {
        true
    }

    open spec fn from_spec(err: std::io::Error) -> Error {
        Error::IoError(err)
    }
}

/// One of the two stages of a shader program.
#[derive(Clone, Copy, Debug, PartialEq, Eq, Structural)]
pub enum ShaderStage {
    Vertex,
    Fragment,
}

/// A text that is handed to the device as a C string.
#[derive(Clone, Copy, Debug, PartialEq, Eq, Structural)]
pub enum TextKind {
    ShaderSource,
    AttributeName,
    UniformName,
}

/// Why a program, an attribute, a uniform or a texture could not be built.
/// None of these is retried.
#[derive(Clone, Debug, PartialEq, Eq)]
pub enum ConstructionError {
    /// No source is registered that the requested language version can run.
    NoCompatibleShader(ShaderStage),
    /// A text holds a zero byte, at `position`, and so cannot be handed over.
    InteriorNul { text: TextKind, position: usize },
    /// A stage did not compile; `log` is the device's diagnostic, verbatim.
    ShaderCompile { stage: ShaderStage, log: String },
    /// The program did not link; `log` is the device's diagnostic, verbatim.
    ProgramLink { log: String },
    /// The program has no attribute of that name.
    AttributeNotFound { name: String },
    /// The program has no uniform of that name.
    UniformNotFound { name: String },
    /// The device answered a question with an answer of the wrong kind.
    UnexpectedReply,
    /// The pixel buffer does not hold four bytes for each pixel of the size given.
    PixelLength { width: u32, height: u32, length: usize },
    /// The device has no name left for a new object.
    OutOfNames,
}

/// What a [`ConstructionError`] holds.
pub enum ConstructionErrorView {
    NoCompatibleShader(ShaderStage),
    InteriorNul { text: TextKind, position: usize },
    ShaderCompile { stage: ShaderStage, log: Seq<char> },
    ProgramLink { log: Seq<char> },
    AttributeNotFound { name: Seq<char> },
    UniformNotFound { name: Seq<char> },
    UnexpectedReply,
    PixelLength { width: u32, height: u32, length: usize },
    OutOfNames,
}

impl View for ConstructionError {
    type V = ConstructionErrorView;

    open spec fn view(&self) -> ConstructionErrorView {
        match *self {
            ConstructionError::NoCompatibleShader(stage) => ConstructionErrorView::NoCompatibleShader(
                stage,
            ),
            ConstructionError::InteriorNul { text, position } => ConstructionErrorView::InteriorNul {
                text,
                position,
            },
            ConstructionError::ShaderCompile { stage, log } => ConstructionErrorView::ShaderCompile {
                stage,
                log: log@,
            },
            ConstructionError::ProgramLink { log } => ConstructionErrorView::ProgramLink {
                log: log@,
            },
            ConstructionError::AttributeNotFound { name } => ConstructionErrorView::AttributeNotFound {
                name: name@,
            },
            ConstructionError::UniformNotFound { name } => ConstructionErrorView::UniformNotFound {
                name: name@,
            },
            ConstructionError::UnexpectedReply => ConstructionErrorView::UnexpectedReply,
            ConstructionError::PixelLength { width, height, length } => ConstructionErrorView::PixelLength {
                width,
                height,
                length,
            },
            ConstructionError::OutOfNames => ConstructionErrorView::OutOfNames,
        }
    }
}

} // verus!
