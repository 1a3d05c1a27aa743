//! A graphics context that keeps books in place of drawing.

pub mod bloom_laws;
pub mod double;
pub mod driver;
pub mod laws;
pub mod state;

pub use double::{Books, GraphicsContext};
pub use state::{ContextState, Fill, Framebuffer, Texture};
