//! A renderable that only remembers whether it was initialised.

use vstd::prelude::*;
use crate::render_error::RenderError;
use crate::vertex::Vertex;

verus! {

/// A stand-in for a mesh: it takes any data, keeps none and draws nothing.
pub struct MockRenderable {
    initialised: bool,
}

impl View for MockRenderable {
    type V = bool;

    /// Whether the renderable is initialised.
    closed spec fn view(&self) -> bool {
        self.initialised
    }
}

impl MockRenderable {
    pub fn new_uninitialised() -> (renderable: MockRenderable)
        ensures
            !renderable@,
    {
        MockRenderable { initialised: false }
    }

    /// An initialised renderable. It never fails.
    pub fn new_initialised<T: Vertex>(_vertices: &Vec<T>, _indices: Option<&Vec<u32>>) -> (result:
        Result<MockRenderable, RenderError>)
        ensures
            result matches Ok(renderable) && renderable@,
    {
        Ok(MockRenderable { initialised: true })
    }

    /// Marks the renderable initialised. It never fails.
    pub fn initialise<T: Vertex>(
        &mut self,
        _vertices: &Vec<T>,
        _indices: Option<&Vec<u32>>,
    ) -> (result:
        Result<(), RenderError>)
        ensures
            result is Ok,
            final(self)@,
    {
        self.initialised = true;
        Ok(())
    }

    /// Takes the data and drops it. It never fails and changes nothing.
    pub fn update_data<T>(&mut self, _vertices: &Vec<T>, _indices: Option<&Vec<u32>>) -> (result:
        Result<(), RenderError>)
        ensures
            result is Ok,
            final(self)@ == old(self)@,
    {
        Ok(())
    }

    /// Draws nothing.
    pub fn draw(&self) {
    }

    /// Marks the renderable uninitialised.
    pub fn uninitialise(&mut self)
        ensures
            !final(self)@,
    {
        self.initialised = false
    }

    pub fn is_initialised(&self) -> (initialised: bool)
        ensures
            initialised == self@,
    {
        self.initialised
    }
}

} // verus!
