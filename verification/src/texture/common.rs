//! What the texture types share.

use vstd::prelude::*;
use crate::command::GlCommand;
use crate::constants::{
    LINEAR, NEAREST, REPEAT, TEXTURE0, TEXTURE_MAG_FILTER, TEXTURE_MIN_FILTER, TEXTURE_WRAP_S,
    TEXTURE_WRAP_T,
};
use crate::render_error::{RenderError, RenderErrorView};

verus! {

/// The error for a texture name that the driver did not give out.
pub open spec fn generation_refused() -> RenderErrorView {
    RenderErrorView::TextureIntError { error: "Failed to generate OpenGL texture ID."@ }
}

/// The error for data that does not have one element for each texel.
pub open spec fn dimensions_refused() -> RenderErrorView {
    RenderErrorView::TextureIntError {
        error: "Set image dimensions do not fit the size of the provided data!"@,
    }
}

/// Whether `data_len` elements are one for each of `texels` texels.
pub open spec fn fits(data_len: nat, texels: int) -> bool {
    data_len == texels
}

/// The commands that bind `texture` to `target` at the first texture unit.
pub open spec fn bind_first(target: u32, texture: u32) -> Seq<GlCommand> {
    seq![GlCommand::ActiveTexture { unit: TEXTURE0 }, GlCommand::BindTexture { target, texture }]
}

/// The commands that bind `texture` to `target` at texture unit `unit`.
/// Units are counted on from the first one, and the count starts over where
/// the numbers end.
pub open spec fn bind_at(target: u32, texture: u32, unit: u32) -> Seq<GlCommand> {
    seq![
        GlCommand::ActiveTexture { unit: TEXTURE0.wrapping_add(unit) },
        GlCommand::BindTexture { target, texture },
    ]
}

/// The commands that make the texture bound to `target` repeat outside its
/// edges.
pub open spec fn repeat(target: u32) -> Seq<GlCommand> {
    seq![
        GlCommand::TexParameteri { target, parameter: TEXTURE_WRAP_S, setting: REPEAT },
        GlCommand::TexParameteri { target, parameter: TEXTURE_WRAP_T, setting: REPEAT },
    ]
}

/// The commands that make the texture bound to `target` filter smoothly, or
/// take the nearest texel.
pub open spec fn filters(target: u32, smooth: bool) -> Seq<GlCommand> {
    let setting = if smooth {
        LINEAR
    } else {
        NEAREST
    };
    seq![
        GlCommand::TexParameteri { target, parameter: TEXTURE_MIN_FILTER, setting },
        GlCommand::TexParameteri { target, parameter: TEXTURE_MAG_FILTER, setting },
    ]
}

/// The error of `generation_refused`.
pub fn generation_error() -> (error: RenderError)
    ensures
        error@ == generation_refused(),
{
    RenderError::texture_int("Failed to generate OpenGL texture ID.")
}

/// The error of `dimensions_refused`.
pub fn dimensions_error() -> (error: RenderError)
    ensures
        error@ == dimensions_refused(),
{
    RenderError::texture_int("Set image dimensions do not fit the size of the provided data!")
}

/// Whether `data_len` elements are one for each texel of a texture of
/// `width` by `height` by `depth`.
pub fn holds(data_len: usize, width: i32, height: i32, depth: i32) -> (holds: bool)
    ensures
        holds == fits(data_len as nat, width * height * depth),
{
    assert(-0x4000_0000_0000_0000 <= width * height <= 0x4000_0000_0000_0000)
        by (nonlinear_arith)
        requires
            -0x8000_0000 <= width <= 0x7fff_ffff,
            -0x8000_0000 <= height <= 0x7fff_ffff,
    ;
    let area: i64 = (width as i64) * (height as i64);
    assert(-0x2000_0000_0000_0000_0000_0000 <= area * depth <= 0x2000_0000_0000_0000_0000_0000)
        by (nonlinear_arith)
        requires
            -0x4000_0000_0000_0000 <= area <= 0x4000_0000_0000_0000,
            -0x8000_0000 <= depth <= 0x7fff_ffff,
    ;
    let volume: i128 = (area as i128) * (depth as i128);
    volume >= 0 && data_len as u128 == volume as u128
}

/// The commands of `bind_first`.
pub fn bind_first_commands(target: u32, texture: u32) -> (commands: Vec<GlCommand>)
    ensures
        commands@ == bind_first(target, texture),
{
    vec![GlCommand::ActiveTexture { unit: TEXTURE0 }, GlCommand::BindTexture { target, texture }]
}

/// The commands of `bind_at`.
pub fn bind_at_commands(target: u32, texture: u32, unit: u32) -> (commands: Vec<GlCommand>)
    ensures
        commands@ == bind_at(target, texture, unit),
{
    vec![
        GlCommand::ActiveTexture { unit: TEXTURE0.wrapping_add(unit) },
        GlCommand::BindTexture { target, texture },
    ]
}

/// The commands of `repeat`.
pub fn repeat_commands(target: u32) -> (commands: Vec<GlCommand>)
    ensures
        commands@ == repeat(target),
{
    vec![
        GlCommand::TexParameteri { target, parameter: TEXTURE_WRAP_S, setting: REPEAT },
        GlCommand::TexParameteri { target, parameter: TEXTURE_WRAP_T, setting: REPEAT },
    ]
}

/// The commands of `filters`.
pub fn filter_commands(target: u32, smooth: bool) -> (commands: Vec<GlCommand>)
    ensures
        commands@ == filters(target, smooth),
{
    let setting = if smooth {
        LINEAR
    } else {
        NEAREST
    };
    vec![
        GlCommand::TexParameteri { target, parameter: TEXTURE_MIN_FILTER, setting },
        GlCommand::TexParameteri { target, parameter: TEXTURE_MAG_FILTER, setting },
    ]
}

} // verus!
