//! Verified planning of OpenGL render targets and of the bloom post-process
//! that composes them.
//!
//! Nothing in this crate talks to a graphics driver. Every operation on a
//! render target yields the exact list of driver commands that realises it,
//! and a backend replays that list on a live context, in order. Where an
//! operation needs an answer of the driver, such as the name of a new
//! object, it is a function of the answers so far (see `plan`).
//!
//! - `command`, `constants`: the commands and queries, and the OpenGL
//!   enumerants that they carry.
//! - `framebuffer`: the single-sample, the multisampled and the bloom target,
//!   with the laws of what their commands do to a context.
//! - `context`: a model of the state of a graphics context, and a context
//!   that keeps books on this model in place of drawing.
//! - `renderable`, `vertex`, `shader`, `texture`: meshes, vertex layouts,
//!   shader programs and textures as the targets need them.
//! - `gl_window`, `camera`: the state of the window and of the matrices of a
//!   camera, as events change it.
//! - `types`: small integer vectors.

pub mod camera;
pub mod command;
pub mod constants;
pub mod context;
pub mod framebuffer;
pub mod gl_window;
pub mod plan;
pub mod render_error;
pub mod renderable;
pub mod shader;
pub mod texture;
pub mod types;
pub mod vertex;
pub mod vertex_2d;
pub mod vertex_3d;

pub use gl_window::GLWindow;
pub use render_error::RenderError;
pub use vertex::Vertex;
pub use vertex_2d::Vertex2d;
pub use vertex_3d::Vertex3d;
