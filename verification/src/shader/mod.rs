//! Shader programs as the renderer sees them.

pub mod nullable_shader_program;
pub mod shader;
pub mod shader_manager;
pub mod shader_program;

pub use nullable_shader_program::NullableShaderProgram;
pub use shader::ShaderComponent;
pub use shader_manager::ShaderManager;
pub use shader_program::ShaderProgram;
