//! The registry of shader programs by name.

use vstd::hash_map::StringHashMap;
use vstd::prelude::*;
use vstd::string::StringExecFns;
use crate::command::GlCommand;
use crate::render_error::{RenderError, RenderErrorView};

verus! {

/// Shader programs by name. A program is known by the name the driver gave
/// it.
pub struct ShaderManager {
    shader_map: StringHashMap<u32>,
}

/// The error for a name that the registry already holds.
pub open spec fn already_registered(name: Seq<char>) -> RenderErrorView {
    RenderErrorView::ShaderError {
        shader_name: name,
        shader_type: "SHADER_PROGRAM"@,
        error: "Shader already exists in shader manager!"@,
    }
}

/// The error for a name that the registry does not hold.
pub open spec fn not_registered(name: Seq<char>) -> RenderErrorView {
    RenderErrorView::ShaderError {
        shader_name: name,
        shader_type: "SHADER_PROGRAM"@,
        error: "Shader doesn't exist!"@,
    }
}

/// What looking `name` up in `shaders` gives.
pub open spec fn lookup(shaders: Map<Seq<char>, u32>, name: Seq<char>) -> Result<
    u32,
    RenderErrorView,
> {
    if shaders.contains_key(name) {
        Ok(shaders[name])
    } else {
        Err(not_registered(name))
    }
}

impl View for ShaderManager {
    type V = Map<Seq<char>, u32>;

    closed spec fn view(&self) -> Map<Seq<char>, u32> {
        self.shader_map@
    }
}

impl ShaderManager {
    /// A registry without programs.
    pub fn new() -> (manager: ShaderManager)
        ensures
            manager@ == Map::<Seq<char>, u32>::empty(),
    {
        ShaderManager { shader_map: StringHashMap::new() }
    }

    /// Puts `program` under `name`. Where the name was taken the new program
    /// replaces the old one all the same, and the call reports the clash.
    pub fn register_shader(&mut self, name: String, program: u32) -> (result: Result<
        u32,
        RenderError,
    >)
        ensures
            final(self)@ == old(self)@.insert(name@, program),
            match result {
                Ok(registered) => !old(self)@.contains_key(name@) && registered == program,
                Err(error) => old(self)@.contains_key(name@) && error@ == already_registered(
                    name@,
                ),
            },
    {
        let taken = self.shader_map.contains_key(name.as_str());
        let kept = name.clone();
        self.shader_map.insert(name, program);
        if taken {
            Err(
                RenderError::ShaderError {
                    shader_name: kept,
                    shader_type: String::from_str("SHADER_PROGRAM"),
                    error: String::from_str("Shader already exists in shader manager!"),
                },
            )
        } else {
            Ok(program)
        }
    }

    /// The program under `shader_name`.
    pub fn get_shader(&self, shader_name: String) -> (result: Result<u32, RenderError>)
        ensures
            match result {
                Ok(program) => lookup(self@, shader_name@) == Ok::<u32, RenderErrorView>(program),
                Err(error) => lookup(self@, shader_name@) == Err::<u32, RenderErrorView>(error@),
            },
    {
        match self.shader_map.get(shader_name.as_str()) {
            Some(program) => Ok(*program),
            None => Err(
                RenderError::ShaderError {
                    shader_name,
                    shader_type: String::from_str("SHADER_PROGRAM"),
                    error: String::from_str("Shader doesn't exist!"),
                },
            ),
        }
    }

    /// Looks `shader_name` up and makes its program the current one: on
    /// success `commands` grows by that one command.
    pub fn bind(&self, shader_name: String, commands: &mut Vec<GlCommand>) -> (result: Result<
        u32,
        RenderError,
    >)
        ensures
            match result {
                Ok(program) => {
                    &&& lookup(self@, shader_name@) == Ok::<u32, RenderErrorView>(program)
                    &&& final(commands)@ == old(commands)@.push(GlCommand::UseProgram { program })
                },
                Err(error) => {
                    &&& lookup(self@, shader_name@) == Err::<u32, RenderErrorView>(error@)
                    &&& final(commands)@ == old(commands)@
                },
            },
    {
        match self.get_shader(shader_name) {
            Ok(program) => {
                commands.push(GlCommand::UseProgram { program });
                Ok(program)
            },
            Err(error) => Err(error),
        }
    }
}

} // verus!
