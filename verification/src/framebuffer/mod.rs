//! Offscreen render targets.

pub mod bloom_framebuffer;
pub mod bloom_laws;
pub mod bloom_payload;
pub mod framebuffer;
pub mod laws;
pub mod multisample_framebuffer;
pub mod multisample_laws;
pub mod simple_framebuffer;
pub mod status;

pub use bloom_framebuffer::BloomFramebuffer;
pub use bloom_payload::QuadMesh;
pub use framebuffer::Framebuffer;
pub use multisample_framebuffer::FrameBufferMultisample;
pub use simple_framebuffer::SimpleFramebuffer;
pub use status::{Completeness, IncompleteAttachmentPolicy};
