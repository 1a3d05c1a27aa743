//! What a vertex type tells the renderer about its layout in memory.

use vstd::prelude::*;
use crate::command::GlCommand;

verus! {

/// A vertex that can be uploaded to a vertex buffer.
pub trait Vertex: Copy {
    /// The commands that describe the vertex's attributes to the bound
    /// vertex array.
    spec fn attrib_ptrs() -> Seq<GlCommand>;

    /// The size of one vertex in a vertex buffer, in bytes.
    spec fn size_in_bytes() -> nat;

    /// The commands that describe the attributes of this vertex type to the
    /// vertex array that is bound when they run.
    fn initialise_attrib_ptrs() -> (commands: Vec<GlCommand>)
        ensures
            commands@ == Self::attrib_ptrs(),
    ;

    /// The size of one vertex in a vertex buffer, in bytes.
    fn byte_size() -> (size: usize)
        ensures
            size == Self::size_in_bytes(),
    ;
}

} // verus!
