//! What every kind of drawable mesh offers.

use vstd::prelude::*;
use crate::render_error::RenderError;
use crate::vertex::Vertex;

verus! {

/// A mesh of vertices of type `T` that can be given data and drawn.
///
/// A renderable is ready or not. It takes data and draws only while it is
/// ready.
pub trait Renderable<T: Vertex>: Sized {
    /// Whether the renderable is ready to take data and to draw.
    spec fn ready(&self) -> bool;

    /// Makes the renderable ready and gives it its first data.
    fn initialise(&mut self, vertices: &Vec<T>, indices: Option<&Vec<u32>>) -> (result: Result<
        (),
        RenderError,
    >)
        ensures
            result is Ok ==> final(self).ready(),
    ;

    /// Replaces the data. A renderable that is not ready refuses, and stays
    /// as it is.
    fn update_data(&mut self, vertices: &Vec<T>, indices: Option<&Vec<u32>>) -> (result: Result<
        (),
        RenderError,
    >)
        ensures
            !old(self).ready() ==> result is Err && *final(self) == *old(self),
            final(self).ready() == old(self).ready(),
    ;

    /// Draws the renderable. It stays ready or not as it was.
    fn draw(&mut self)
        ensures
            final(self).ready() == old(self).ready(),
    ;

    /// Gives up what the renderable holds. It is not ready afterwards.
    fn uninitialise(&mut self)
        ensures
            !final(self).ready(),
    ;

    /// Whether the renderable is ready.
    fn is_initialised(&self) -> (initialised: bool)
        ensures
            initialised == self.ready(),
    ;
}

} // verus!
