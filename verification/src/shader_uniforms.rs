//! Types and methods for setting shader uniforms

use std::marker::PhantomData;
use vstd::prelude::*;
use vstd::string::StringSliceAdditionalSpecFns;
use crate::back_end::GlGraphics;
use crate::gl;
use crate::gl::{BlobView, Device, GLint, GlCall};
use crate::shader_utils::{nul_free, nul_position};

verus! {

/// Describes a shader uniform of a given type.
pub struct ShaderUniform<T: ?Sized> {
    location: GLint,
    phantom: PhantomData<T>,
}

impl<T: ?Sized> Clone for ShaderUniform<T> {
    fn clone(&self) -> (copy: Self)
        ensures
            copy == *self,
    {
        ShaderUniform { location: self.location, phantom: PhantomData }
    }
}

impl<T: ?Sized> Copy for ShaderUniform<T> {

}

/// Shader uniform type
///
/// For now a small subset
pub trait UniformType {

}

/// Shader uniform float
#[derive(Clone, Copy)]
pub struct SUFloat {}

impl UniformType for SUFloat {

}

/// Shader uniform integer
#[derive(Clone, Copy)]
pub struct SUInt {}

impl UniformType for SUInt {

}

/// Shader uniform vector of size 2
/// Vector elements are floats
#[derive(Clone, Copy)]
pub struct SUVec2 {}

impl UniformType for SUVec2 {

}

/// Shader uniform vector of size 3
/// Vector elements are floats
#[derive(Clone, Copy)]
pub struct SUVec3 {}

impl UniformType for SUVec3 {

}

/// Shader uniform vector of size 4
/// Vector elements are floats
#[derive(Clone, Copy)]
pub struct SUVec4 {}

impl UniformType for SUVec4 {

}

/// Shader uniform 2x2 matrix
/// Matrix elements are floats
#[derive(Clone, Copy)]
pub struct SUMat2x2 {}

impl UniformType for SUMat2x2 {

}

/// Shader uniform 3x3 matrix
/// Matrix elements are floats
#[derive(Clone, Copy)]
pub struct SUMat3x3 {}

impl UniformType for SUMat3x3 {

}

/// Shader uniform 4x4 matrix
/// Matrix elements are floats
#[derive(Clone, Copy)]
pub struct SUMat4x4 {}

impl UniformType for SUMat4x4 {

}

impl GlGraphics {
    /// Try to get uniform from the current shader of a given name.
    ///
    /// Where a program is current and the name holds no zero byte, the
    /// device is asked for the location, and the answer goes to
    /// [`ShaderUniform::at`]. Otherwise there is no such uniform, and
    /// nothing is asked. Returns whether the device was asked.
    pub fn get_uniform(&self, dev: &mut Device, name: &str) -> (asked: bool)
        ensures
            asked == (self@.current_program is Some && nul_free(name.spec_bytes())),
            asked ==> final(dev)@ == old(dev)@.call_with(
                GlCall::GetUniformLocation { program: self@.current_program->0 },
                BlobView::Text(name@),
            ),
            !asked ==> final(dev)@ == old(dev)@,
    {
        match self.get_current_program() {
            None => false,
            Some(p) => match nul_position(name) {
                Some(_) => false,
                None => {
                    gl::GetUniformLocation(dev, p, name);
                    true
                },
            },
        }
    }
}

impl<T: UniformType + ?Sized> ShaderUniform<T> {
    /// The location of the uniform in its program.
    pub closed spec fn location(&self) -> GLint {
        self.location
    }

    /// The uniform at the location that the device answered. The location
    /// -1 means that the program has no such uniform.
    pub fn at(location: GLint) -> (uniform: Option<ShaderUniform<T>>)
        ensures
            location == -1 ==> uniform is None,
            location != -1 ==> uniform is Some && uniform->0.location() == location,
    {
        if location == -1 {
            None
        } else {
            Some(ShaderUniform { location, phantom: PhantomData })
        }
    }
}

/// The device after a uniform has been set by `call` under the program
/// that is current, if one is; otherwise nothing is set.
pub open spec fn uniform_set(before: gl::DeviceView, program: Option<gl::GLuint>, call: GlCall)
    -> gl::DeviceView {
    match program {
        Some(_) => before.call(call),
        None => before,
    }
}

impl ShaderUniform<SUFloat> {
    /// Set the value of the float uniform.
    pub fn set(&self, gl: &GlGraphics, dev: &mut Device, value: u32)
        ensures
            final(dev)@ == uniform_set(
                old(dev)@,
                gl@.current_program,
                GlCall::ProgramUniform1f {
                    program: gl@.current_program->0,
                    location: self.location(),
                    value,
                },
            ),
    {
        match gl.get_current_program() {
            Some(p) => gl::ProgramUniform1f(dev, p, self.location, value),
            None => {},
        }
    }
}

impl ShaderUniform<SUInt> {
    /// Set the value of the integer uniform.
    pub fn set(&self, gl: &GlGraphics, dev: &mut Device, value: i32)
        ensures
            final(dev)@ == uniform_set(
                old(dev)@,
                gl@.current_program,
                GlCall::ProgramUniform1i {
                    program: gl@.current_program->0,
                    location: self.location(),
                    value,
                },
            ),
    {
        match gl.get_current_program() {
            Some(p) => gl::ProgramUniform1i(dev, p, self.location, value),
            None => {},
        }
    }
}

impl ShaderUniform<SUVec2> {
    /// Set the value of the vector 2 uniform.
    pub fn set(&self, gl: &GlGraphics, dev: &mut Device, value: &[u32; 2])
        ensures
            final(dev)@ == uniform_set(
                old(dev)@,
                gl@.current_program,
                GlCall::ProgramUniform2f {
                    program: gl@.current_program->0,
                    location: self.location(),
                    x: value[0],
                    y: value[1],
                },
            ),
    {
        match gl.get_current_program() {
            Some(p) => gl::ProgramUniform2f(dev, p, self.location, value[0], value[1]),
            None => {},
        }
    }
}

impl ShaderUniform<SUVec3> {
    /// Set the value of the vector 3 uniform.
    pub fn set(&self, gl: &GlGraphics, dev: &mut Device, value: &[u32; 3])
        ensures
            final(dev)@ == uniform_set(
                old(dev)@,
                gl@.current_program,
                GlCall::ProgramUniform3f {
                    program: gl@.current_program->0,
                    location: self.location(),
                    x: value[0],
                    y: value[1],
                    z: value[2],
                },
            ),
    {
        match gl.get_current_program() {
            Some(p) => gl::ProgramUniform3f(dev, p, self.location, value[0], value[1], value[2]),
            None => {},
        }
    }
}

impl ShaderUniform<SUVec4> {
    /// Set the value of the vector 4 uniform.
    pub fn set(&self, gl: &GlGraphics, dev: &mut Device, value: &[u32; 4])
        ensures
            final(dev)@ == uniform_set(
                old(dev)@,
                gl@.current_program,
                GlCall::ProgramUniform4f {
                    program: gl@.current_program->0,
                    location: self.location(),
                    x: value[0],
                    y: value[1],
                    z: value[2],
                    w: value[3],
                },
            ),
    {
        match gl.get_current_program() {
            Some(p) => gl::ProgramUniform4f(
                dev,
                p,
                self.location,
                value[0],
                value[1],
                value[2],
                value[3],
            ),
            None => {},
        }
    }
}

/// The device after one matrix uniform has been set by `call`, which
/// carries `values`, under the program that is current, if one is;
/// otherwise nothing is set.
pub open spec fn matrix_set(
    before: gl::DeviceView,
    program: Option<gl::GLuint>,
    call: GlCall,
    values: Seq<u32>,
) -> gl::DeviceView {
    match program {
        Some(_) => before.call_with(call, BlobView::Words(values)),
        None => before,
    }
}

impl ShaderUniform<SUMat2x2> {
    /// Set the value of the 2x2 matrix uniform.
    pub fn set(&self, gl: &GlGraphics, dev: &mut Device, values: &[u32; 4])
        ensures
            final(dev)@ == matrix_set(
                old(dev)@,
                gl@.current_program,
                GlCall::ProgramUniformMatrix2fv {
                    program: gl@.current_program->0,
                    location: self.location(),
                    count: 1,
                    transpose: gl::FALSE,
                },
                values@,
            ),
    {
        match gl.get_current_program() {
            Some(p) => gl::ProgramUniformMatrix2fv(
                dev,
                p,
                self.location,
                1,
                gl::FALSE,
                values.as_slice(),
            ),
            None => {},
        }
    }
}

impl ShaderUniform<SUMat3x3> {
    /// Set the value of the 3x3 matrix uniform.
    pub fn set(&self, gl: &GlGraphics, dev: &mut Device, values: &[u32; 9])
        ensures
            final(dev)@ == matrix_set(
                old(dev)@,
                gl@.current_program,
                GlCall::ProgramUniformMatrix3fv {
                    program: gl@.current_program->0,
                    location: self.location(),
                    count: 1,
                    transpose: gl::FALSE,
                },
                values@,
            ),
    {
        match gl.get_current_program() {
            Some(p) => gl::ProgramUniformMatrix3fv(
                dev,
                p,
                self.location,
                1,
                gl::FALSE,
                values.as_slice(),
            ),
            None => {},
        }
    }
}

impl ShaderUniform<SUMat4x4> {
    /// Set the value of the 4x4 matrix uniform.
    pub fn set(&self, gl: &GlGraphics, dev: &mut Device, values: &[u32; 16])
        ensures
            final(dev)@ == matrix_set(
                old(dev)@,
                gl@.current_program,
                GlCall::ProgramUniformMatrix4fv {
                    program: gl@.current_program->0,
                    location: self.location(),
                    count: 1,
                    transpose: gl::FALSE,
                },
                values@,
            ),
    {
        match gl.get_current_program() {
            Some(p) => gl::ProgramUniformMatrix4fv(
                dev,
                p,
                self.location,
                1,
                gl::FALSE,
                values.as_slice(),
            ),
            None => {},
        }
    }
}

} // verus!
