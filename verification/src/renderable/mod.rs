//! Things that can be drawn.

pub mod gl_renderable;
pub mod mock_renderable;
pub mod nullable_renderable;
pub mod renderable;

pub use gl_renderable::GlRenderable;
pub use mock_renderable::MockRenderable;
pub use nullable_renderable::NullableRenderable;
pub use renderable::Renderable;
