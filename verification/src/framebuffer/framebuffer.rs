//! What every render target offers.

use vstd::prelude::*;
use crate::command::GlCommand;
use crate::framebuffer::bloom_framebuffer::BloomFramebuffer;
use crate::framebuffer::multisample_framebuffer::FrameBufferMultisample;
use crate::framebuffer::simple_framebuffer::{draw_to_window, SimpleFramebuffer};
use crate::render_error::{RenderError, RenderErrorView};
use crate::shader::shader_manager::ShaderManager;
use crate::types::{IVec2, UVec2};

verus! {

/// A render target: something to draw into, to clear, to resize and to copy
/// onto the target that is bound for drawing.
pub trait Framebuffer: Sized {
    /// The name of the framebuffer object.
    spec fn name(&self) -> u32;

    /// Width and height in pixels.
    spec fn extent(&self) -> IVec2;

    /// The commands of `bind_draw_target`.
    spec fn binding(&self) -> Seq<GlCommand>;

    /// The commands of `clear`.
    spec fn clearing(&self) -> Seq<GlCommand>;

    /// The commands of `resize`, for the size that the target has.
    spec fn resizing(&self) -> Seq<GlCommand>;

    /// The commands and the error of `blit`.
    spec fn copying(
        &self,
        target_size: UVec2,
        mask: u32,
        filter: u32,
        shaders: Map<Seq<char>, u32>,
    ) -> (Seq<GlCommand>, Option<RenderErrorView>);

    /// Makes the target the destination of the draws that follow.
    fn bind_draw_target(&self) -> (commands: Vec<GlCommand>)
        ensures
            commands@ == self.binding(),
    ;

    /// Clears the target for a new frame.
    fn clear(&self) -> (commands: Vec<GlCommand>)
        ensures
            commands@ == self.clearing(),
    ;

    /// Gives the target storage of `width` by `height` pixels. It keeps its
    /// name. A width or height beyond the signed 32-bit numbers is cut to 32
    /// bits.
    fn resize(&mut self, width: u32, height: u32) -> (commands: Vec<GlCommand>)
        ensures
            final(self).extent() == (IVec2 { x: width as i32, y: height as i32 }),
            width <= i32::MAX ==> final(self).extent().x == width,
            height <= i32::MAX ==> final(self).extent().y == height,
            final(self).name() == old(self).name(),
            commands@ == final(self).resizing(),
    ;

    /// Copies the target, after its post-process if it has one, onto the
    /// window at `target_size`.
    fn blit(
        &self,
        target_size: UVec2,
        mask: u32,
        filter: u32,
        shader_manager: &ShaderManager,
    ) -> (result:
        (Vec<GlCommand>, Result<(), RenderError>))
        ensures
            result.0@ == self.copying(target_size, mask, filter, shader_manager@).0,
            match result.1 {
                Ok(_) => self.copying(target_size, mask, filter, shader_manager@).1 is None,
                Err(error) => self.copying(target_size, mask, filter, shader_manager@).1 == Some(
                    error@,
                ),
            },
    ;

    /// Makes the window's own framebuffer the destination of the draws that
    /// follow.
    fn bind_default_framebuffer() -> (commands: Vec<GlCommand>)
        ensures
            commands@ == draw_to_window(),
    ;
}

impl Framebuffer for SimpleFramebuffer {
    open spec fn name(&self) -> u32 {
        self@.fbo_id
    }

    open spec fn extent(&self) -> IVec2 {
        self@.size
    }

    open spec fn binding(&self) -> Seq<GlCommand> {
        self@.bind_draw_target()
    }

    open spec fn clearing(&self) -> Seq<GlCommand> {
        self@.clear()
    }

    open spec fn resizing(&self) -> Seq<GlCommand> {
        self@.resize()
    }

    /// The target is copied as it is, and no shader is needed.
    open spec fn copying(
        &self,
        target_size: UVec2,
        mask: u32,
        filter: u32,
        shaders: Map<Seq<char>, u32>,
    ) -> (Seq<GlCommand>, Option<RenderErrorView>) {
        (self@.blit(target_size, mask, filter), None)
    }

    fn bind_draw_target(&self) -> (commands: Vec<GlCommand>) {
        SimpleFramebuffer::bind_draw_target(self)
    }

    fn clear(&self) -> (commands: Vec<GlCommand>) {
        SimpleFramebuffer::clear(self)
    }

    fn resize(&mut self, width: u32, height: u32) -> (commands: Vec<GlCommand>) {
        SimpleFramebuffer::resize(self, width, height)
    }

    fn blit(
        &self,
        target_size: UVec2,
        mask: u32,
        filter: u32,
        shader_manager: &ShaderManager,
    ) -> (result:
        (Vec<GlCommand>, Result<(), RenderError>)) {
        (SimpleFramebuffer::blit(self, target_size, mask, filter), Ok(()))
    }

    fn bind_default_framebuffer() -> (commands: Vec<GlCommand>) {
        SimpleFramebuffer::bind_default_framebuffer()
    }
}

impl Framebuffer for FrameBufferMultisample {
    open spec fn name(&self) -> u32 {
        self@.fbo_id
    }

    open spec fn extent(&self) -> IVec2 {
        self@.size
    }

    open spec fn binding(&self) -> Seq<GlCommand> {
        self@.bind_draw_target()
    }

    /// The target is cleared to black without opacity.
    open spec fn clearing(&self) -> Seq<GlCommand> {
        self@.clear_with_zeros()
    }

    open spec fn resizing(&self) -> Seq<GlCommand> {
        self@.resize()
    }

    /// The target is resolved as it is, and no shader is needed.
    open spec fn copying(
        &self,
        target_size: UVec2,
        mask: u32,
        filter: u32,
        shaders: Map<Seq<char>, u32>,
    ) -> (Seq<GlCommand>, Option<RenderErrorView>) {
        (self@.blit(target_size, mask, filter), None)
    }

    fn bind_draw_target(&self) -> (commands: Vec<GlCommand>) {
        FrameBufferMultisample::bind_draw_target(self)
    }

    fn clear(&self) -> (commands: Vec<GlCommand>) {
        FrameBufferMultisample::clear_with_zeros(self)
    }

    fn resize(&mut self, width: u32, height: u32) -> (commands: Vec<GlCommand>) {
        FrameBufferMultisample::resize(self, width, height)
    }

    fn blit(
        &self,
        target_size: UVec2,
        mask: u32,
        filter: u32,
        shader_manager: &ShaderManager,
    ) -> (result:
        (Vec<GlCommand>, Result<(), RenderError>)) {
        (FrameBufferMultisample::blit(self, target_size, mask, filter), Ok(()))
    }

    fn bind_default_framebuffer() -> (commands: Vec<GlCommand>) {
        FrameBufferMultisample::bind_default_framebuffer()
    }
}

impl Framebuffer for BloomFramebuffer {
    open spec fn name(&self) -> u32 {
        self@.fbo_id
    }

    open spec fn extent(&self) -> IVec2 {
        self@.size
    }

    open spec fn binding(&self) -> Seq<GlCommand> {
        self@.bind_draw_target()
    }

    open spec fn clearing(&self) -> Seq<GlCommand> {
        self@.clear()
    }

    open spec fn resizing(&self) -> Seq<GlCommand> {
        self@.resize()
    }

    /// The post-process, with bloom if the target does bloom.
    open spec fn copying(
        &self,
        target_size: UVec2,
        mask: u32,
        filter: u32,
        shaders: Map<Seq<char>, u32>,
    ) -> (Seq<GlCommand>, Option<RenderErrorView>) {
        self@.blit(target_size, mask, filter, shaders)
    }

    fn bind_draw_target(&self) -> (commands: Vec<GlCommand>) {
        BloomFramebuffer::bind_draw_target(self)
    }

    fn clear(&self) -> (commands: Vec<GlCommand>) {
        BloomFramebuffer::clear(self)
    }

    fn resize(&mut self, width: u32, height: u32) -> (commands: Vec<GlCommand>) {
        BloomFramebuffer::resize(self, width, height)
    }

    fn blit(
        &self,
        target_size: UVec2,
        mask: u32,
        filter: u32,
        shader_manager: &ShaderManager,
    ) -> (result:
        (Vec<GlCommand>, Result<(), RenderError>)) {
        BloomFramebuffer::blit(self, target_size, mask, filter, shader_manager)
    }

    fn bind_default_framebuffer() -> (commands: Vec<GlCommand>) {
        SimpleFramebuffer::bind_default_framebuffer()
    }
}

} // verus!
