//! The OpenGL enumerants that the planned commands carry, under the names the
//! OpenGL registry gives them.

use vstd::prelude::*;

verus! {

pub const FRAMEBUFFER: u32 = 0x8D40;
pub const READ_FRAMEBUFFER: u32 = 0x8CA8;
pub const DRAW_FRAMEBUFFER: u32 = 0x8CA9;

pub const FRAMEBUFFER_COMPLETE: u32 = 0x8CD5;
pub const FRAMEBUFFER_UNDEFINED: u32 = 0x8219;
pub const FRAMEBUFFER_INCOMPLETE_ATTACHMENT: u32 = 0x8CD6;
pub const FRAMEBUFFER_INCOMPLETE_MISSING_ATTACHMENT: u32 = 0x8CD7;
pub const FRAMEBUFFER_INCOMPLETE_DRAW_BUFFER: u32 = 0x8CDB;
pub const FRAMEBUFFER_INCOMPLETE_READ_BUFFER: u32 = 0x8CDC;
pub const FRAMEBUFFER_INCOMPLETE_MULTISAMPLE: u32 = 0x8D56;
pub const FRAMEBUFFER_INCOMPLETE_LAYER_TARGETS: u32 = 0x8DA8;

pub const TEXTURE_1D: u32 = 0x0DE0;
pub const TEXTURE_2D: u32 = 0x0DE1;
pub const TEXTURE_3D: u32 = 0x806F;
pub const TEXTURE_2D_MULTISAMPLE: u32 = 0x9100;
pub const TEXTURE_MAG_FILTER: u32 = 0x2800;
pub const TEXTURE_MIN_FILTER: u32 = 0x2801;
pub const TEXTURE_WRAP_S: u32 = 0x2802;
pub const TEXTURE_WRAP_T: u32 = 0x2803;
pub const NEAREST: u32 = 0x2600;
pub const LINEAR: u32 = 0x2601;
pub const CLAMP_TO_EDGE: u32 = 0x812F;
pub const REPEAT: u32 = 0x2901;
pub const TEXTURE0: u32 = 0x84C0;
pub const TEXTURE1: u32 = 0x84C1;

pub const RGBA: u32 = 0x1908;
pub const RED_INTEGER: u32 = 0x8D94;
pub const R8UI: u32 = 0x8232;
pub const R32UI: u32 = 0x8236;
pub const UNPACK_ALIGNMENT: u32 = 0x0CF5;
pub const UNSIGNED_BYTE: u32 = 0x1401;
pub const UNSIGNED_INT: u32 = 0x1405;
pub const FLOAT: u32 = 0x1406;
pub const DEPTH24_STENCIL8: u32 = 0x88F0;
pub const DEPTH_STENCIL: u32 = 0x84F9;
pub const UNSIGNED_INT_24_8: u32 = 0x84FA;

pub const COLOR_ATTACHMENT0: u32 = 0x8CE0;
pub const COLOR_ATTACHMENT1: u32 = 0x8CE1;
pub const DEPTH_STENCIL_ATTACHMENT: u32 = 0x821A;

pub const COLOR_BUFFER_BIT: u32 = 0x4000;
pub const DEPTH_BUFFER_BIT: u32 = 0x0100;
pub const STENCIL_BUFFER_BIT: u32 = 0x0400;

pub const DEPTH_TEST: u32 = 0x0B71;
pub const ONE: u32 = 1;
pub const SRC_ALPHA: u32 = 0x0302;
pub const ONE_MINUS_SRC_ALPHA: u32 = 0x0303;

pub const ARRAY_BUFFER: u32 = 0x8892;
pub const ELEMENT_ARRAY_BUFFER: u32 = 0x8893;
pub const STATIC_DRAW: u32 = 0x88E4;
pub const TRIANGLES: u32 = 0x0004;

} // verus!
