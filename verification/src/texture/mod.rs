//! Textures with data.

pub mod common;
pub mod gl_texture_1d;
pub mod gl_texture_1d_int;
pub mod gl_texture_2d;
pub mod gl_texture_2d_int;
pub mod gl_texture_2d_u8;
pub mod gl_texture_3d;
pub mod gl_texture_3d_int;
pub mod gl_texture_3d_u8;
pub mod texture_manager;

pub use gl_texture_1d::Texture1D;
pub use gl_texture_1d_int::Texture1DInt;
pub use gl_texture_2d::Texture2D;
pub use gl_texture_2d_int::Texture2DInt;
pub use gl_texture_2d_u8::Texture2Du8;
pub use gl_texture_3d::Texture3D;
pub use gl_texture_3d_int::Texture3DInt;
pub use gl_texture_3d_u8::Texture3Du8;
pub use texture_manager::{TextureFile, TextureManager};
