//! A vertex on the plane with a texture coordinate.

use vstd::prelude::*;
use crate::command::GlCommand;
use crate::vertex::Vertex;

verus! {

/// A position `(x, y)` and a texture coordinate `(u, v)`. Each field is the
/// bit pattern of an IEEE-754 single-precision number.
#[derive(Debug, Clone, Copy, PartialEq, Eq, Structural)]
pub struct Vertex2d {
    pub x: u32,
    pub y: u32,
    pub u: u32,
    pub v: u32,
}

impl Vertex for Vertex2d {
    /// Attribute 0 is the position, two numbers at the start of the vertex;
    /// attribute 1 is the texture coordinate, two numbers 8 bytes in. Vertices
    /// lie 16 bytes apart.
    open spec fn attrib_ptrs() -> Seq<GlCommand> {
        seq![
            GlCommand::VertexAttribPointer { index: 0, components: 2, stride: 16, offset: 0 },
            GlCommand::EnableVertexAttribArray { index: 0 },
            GlCommand::VertexAttribPointer { index: 1, components: 2, stride: 16, offset: 8 },
            GlCommand::EnableVertexAttribArray { index: 1 },
        ]
    }

    open spec fn size_in_bytes() -> nat {
        16
    }

    fn initialise_attrib_ptrs() -> (commands: Vec<GlCommand>) {
        vec![
            GlCommand::VertexAttribPointer { index: 0, components: 2, stride: 16, offset: 0 },
            GlCommand::EnableVertexAttribArray { index: 0 },
            GlCommand::VertexAttribPointer { index: 1, components: 2, stride: 16, offset: 8 },
            GlCommand::EnableVertexAttribArray { index: 1 },
        ]
    }

    fn byte_size() -> (size: usize) {
        16
    }
}

} // verus!
