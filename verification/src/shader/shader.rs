//! One compiled stage of a shader program.

use vstd::prelude::*;
use vstd::string::StringExecFns;
use crate::command::GlCommand;

verus! {

/// A shader object of the driver.
pub struct ShaderComponent {
    id: u32,
}

impl View for ShaderComponent {
    type V = u32;

    /// The name that the driver knows the shader by; 0 for none.
    closed spec fn view(&self) -> u32 {
        self.id
    }
}

/// The text for a shader that the driver did not create.
pub open spec fn shader_refused() -> Seq<char> {
    "GPU returned shader with ID 0; perhaps OpenGL is not supported or settings are wrong for the system type?"@
}

/// The text for a shader that the driver did not compile, with the driver's
/// log.
pub open spec fn compilation_failed(log: Seq<char>) -> Seq<char> {
    "Compilation Error: "@ + log
}

impl ShaderComponent {
    /// No shader.
    pub fn empty_shader() -> (shader: ShaderComponent)
        ensures
            shader@ == 0,
    {
        ShaderComponent { id: 0 }
    }

    /// Judges what the driver made of a shader source: `id` is the name it
    /// gave the shader, `compile_status` what it reports once the source is
    /// compiled, and `log` its log, which is read only where the status
    /// is 0. A name of 0 comes before a compile: the status and the log are
    /// then not looked at.
    pub fn load_and_compile_shader(id: u32, compile_status: i32, log: &str) -> (result: Result<
        ShaderComponent,
        String,
    >)
        ensures
            match result {
                Ok(shader) => id != 0 && compile_status != 0 && shader@ == id,
                Err(text) => if id == 0 {
                    text@ == shader_refused()
                } else {
                    compile_status == 0 && text@ == compilation_failed(log@)
                },
            },
    {
        if id == 0 {
            return Err(
                String::from_str(
                    "GPU returned shader with ID 0; perhaps OpenGL is not supported or settings are wrong for the system type?",
                ),
            );
        }
        if compile_status == 0 {
            let mut text = String::from_str("Compilation Error: ");
            text.append(log);
            return Err(text);
        }
        Ok(ShaderComponent { id })
    }

    /// The name that the driver knows the shader by.
    #[allow(non_snake_case)]
    pub fn get_ID(&self) -> (id: u32)
        ensures
            id == self@,
    {
        self.id
    }

    /// The command that deletes the shader.
    pub fn delete(&self) -> (commands: Vec<GlCommand>)
        ensures
            commands@ == seq![GlCommand::DeleteShader { shader: self@ }],
    {
        vec![GlCommand::DeleteShader { shader: self.id }]
    }
}

} // verus!
