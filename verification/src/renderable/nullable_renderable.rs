//! A renderable that keeps what it is given, for a caller to read back.

use vstd::prelude::*;
use crate::render_error::RenderError;
use crate::renderable::gl_renderable::not_initialised;
use crate::renderable::renderable::Renderable;
use crate::vertex::Vertex;

verus! {

/// A mesh without a driver: it records its data and whether it was drawn.
pub struct NullableRenderable<T: Vertex> {
    initialised: bool,
    vertices: Vec<T>,
    indices: Option<Vec<u32>>,
    was_drawn: bool,
}

/// What a `NullableRenderable` holds.
pub struct NullableRenderableView<T> {
    pub initialised: bool,
    pub vertices: Seq<T>,
    pub indices: Option<Seq<u32>>,
    pub was_drawn: bool,
}

/// The elements of an optional index list.
pub open spec fn index_view(indices: Option<&Vec<u32>>) -> Option<Seq<u32>> {
    match indices {
        Some(list) => Some(list@),
        None => None,
    }
}

impl<T: Vertex> View for NullableRenderable<T> {
    type V = NullableRenderableView<T>;

    closed spec fn view(&self) -> NullableRenderableView<T> {
        NullableRenderableView {
            initialised: self.initialised,
            vertices: self.vertices@,
            indices: match self.indices {
                Some(list) => Some(list@),
                None => None,
            },
            was_drawn: self.was_drawn,
        }
    }
}

/// A copy of `source`.
fn copy_of<E: Copy>(source: &Vec<E>) -> (copy: Vec<E>)
    ensures
        copy@ == source@,
{
    let mut copy: Vec<E> = Vec::new();
    let mut i: usize = 0;
    while i < source.len()
        invariant
            i <= source@.len(),
            copy@ == source@.subrange(0, i as int),
        decreases source@.len() - i,
    {
        copy.push(source[i]);
        assert(copy@ =~= source@.subrange(0, i + 1));
        i = i + 1;
    }
    assert(copy@ =~= source@);
    copy
}

impl<T: Vertex> NullableRenderable<T> {
    /// A renderable in the state given.
    pub fn new(
        initialised: bool,
        vertices: Vec<T>,
        indices: Option<Vec<u32>>,
        was_drawn: bool,
    ) -> (renderable:
        Self)
        ensures
            renderable@ == (NullableRenderableView {
                initialised,
                vertices: vertices@,
                indices: match indices {
                    Some(list) => Some(list@),
                    None => None,
                },
                was_drawn,
            }),
    {
        NullableRenderable { initialised, vertices, indices, was_drawn }
    }

    /// The vertices last given.
    pub fn vertices(&self) -> (vertices: &Vec<T>)
        ensures
            vertices@ == self@.vertices,
    {
        &self.vertices
    }

    /// The indices last given, if any were.
    pub fn indices(&self) -> (indices: Option<&Vec<u32>>)
        ensures
            index_view(indices) == self@.indices,
    {
        match &self.indices {
            Some(list) => Some(list),
            None => None,
        }
    }

    /// Whether the renderable was drawn since it was made.
    pub fn was_drawn(&self) -> (drawn: bool)
        ensures
            drawn == self@.was_drawn,
    {
        self.was_drawn
    }
}

impl<T: Vertex> Renderable<T> for NullableRenderable<T> {
    open spec fn ready(&self) -> bool {
        self@.initialised
    }

    /// Marks the renderable initialised and keeps a copy of the data.
    fn initialise(&mut self, vertices: &Vec<T>, indices: Option<&Vec<u32>>) -> (result: Result<
        (),
        RenderError,
    >)
        ensures
            result is Ok,
            final(self)@ == (NullableRenderableView {
                initialised: true,
                vertices: vertices@,
                indices: index_view(indices),
                was_drawn: old(self)@.was_drawn,
            }),
    {
        self.initialised = true;
        self.update_data(vertices, indices)
    }

    /// Keeps a copy of the data in place of what was kept before. A
    /// renderable that is not initialised refuses, and stays as it is.
    fn update_data(&mut self, vertices: &Vec<T>, indices: Option<&Vec<u32>>) -> (result: Result<
        (),
        RenderError,
    >)
        ensures
            old(self)@.initialised ==> result is Ok && final(self)@ == (NullableRenderableView {
                vertices: vertices@,
                indices: index_view(indices),
                ..old(self)@
            }),
            !old(self)@.initialised ==> (result matches Err(e) && e@ == not_initialised()),
    {
        if !self.initialised {
            return Err(
                RenderError::renderable(
                    "Tried to set data for a renderable that isn't initialised!",
                ),
            );
        }
        self.vertices = copy_of(vertices);
        match indices {
            None => {
                self.indices = None;
            },
            Some(index_data) => {
                self.indices = Some(copy_of(index_data));
            },
        }
        Ok(())
    }

    /// Remembers that the renderable was drawn.
    fn draw(&mut self)
        ensures
            final(self)@ == (NullableRenderableView { was_drawn: true, ..old(self)@ }),
    {
        self.was_drawn = true;
    }

    /// Marks the renderable uninitialised. The data stays.
    fn uninitialise(&mut self)
        ensures
            final(self)@ == (NullableRenderableView { initialised: false, ..old(self)@ }),
    {
        self.initialised = false;
    }

    fn is_initialised(&self) -> (initialised: bool) {
        self.initialised
    }
}

} // verus!
