//! Small integer vectors.

pub mod arith;
pub mod ivec2;
pub mod ivec3;
pub mod ivec4;
pub mod uvec2;

pub use ivec2::{ivec2, IVec2};
pub use ivec3::{ivec3, IVec3};
pub use ivec4::{ivec4, IVec4};
pub use uvec2::{uvec2, UVec2};
