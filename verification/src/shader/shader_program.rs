//! What the renderer asks of a shader program.

use vstd::prelude::*;
use crate::command::{GlCommand, UniformValue};

verus! {

/// A shader program that can be made current and given uniform values.
///
/// The trait is for backends to implement, and promises nothing of them.
pub trait ShaderProgram: Sized {
    /// Makes the program the current one.
    fn bind(&mut self);

    /// Sets the uniform called `name` to `value`.
    fn set_uniform(&mut self, name: String, value: UniformValue);
}

/// Hands `command` to `shader` where it speaks to the program that the
/// driver knows as `program`: a `UseProgram` binds the shader, a
/// `SetUniform` sets the uniform by the name it has in the shader source.
/// The result says whether the command was for the shader.
pub fn dispatch<P: ShaderProgram>(shader: &mut P, program: u32, command: &GlCommand) -> (taken:
    bool)
    ensures
        taken == match *command {
            GlCommand::UseProgram { program: p } => p == program,
            GlCommand::SetUniform { program: p, .. } => p == program,
            _ => false,
        },
        !taken ==> *final(shader) == *old(shader),
{
    match command {
        GlCommand::UseProgram { program: p } => {
            if *p == program {
                shader.bind();
                true
            } else {
                false
            }
        },
        GlCommand::SetUniform { program: p, name, value } => {
            if *p == program {
                shader.set_uniform(name.as_str().to_owned(), *value);
                true
            } else {
                false
            }
        },
        _ => false,
    }
}

} // verus!
