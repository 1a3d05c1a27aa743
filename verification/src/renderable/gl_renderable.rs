//! A vertex array of the driver, with or without an index buffer.

use core::marker::PhantomData;
use vstd::prelude::*;
use crate::command::{GlCommand, GlQuery, Payload};
use crate::constants::{ARRAY_BUFFER, ELEMENT_ARRAY_BUFFER};
use crate::plan::{extend, Construction, Outline};
use crate::render_error::{RenderError, RenderErrorView};
use crate::vertex::Vertex;

verus! {

/// The driver objects behind a mesh of vertices of type `T`, or their absence.
pub enum GlRenderable<T: Vertex> {
    InitialisedWithIndexing { vao: u32, vbo: u32, ibo: u32, index_count: i32 },
    Initialised { vao: u32, vbo: u32, vertex_count: i32 },
    Uninitialised { _phantom: PhantomData<T> },
}

impl<T: Vertex> View for GlRenderable<T> {
    type V = GlRenderable<T>;

    open spec fn view(&self) -> GlRenderable<T> {
        *self
    }
}

/// The number of elements of an optional index list.
pub open spec fn index_len(indices: Option<&Vec<u32>>) -> Option<nat> {
    match indices {
        Some(list) => Some(list@.len()),
        None => None,
    }
}

/// The error for a vertex array that the driver did not create.
pub open spec fn vertex_array_refused() -> RenderErrorView {
    RenderErrorView::RenderableError {
        error: "Failed to create vertex array for the world map!"@,
    }
}

/// The error for a vertex buffer that the driver did not create.
pub open spec fn vertex_buffer_refused() -> RenderErrorView {
    RenderErrorView::RenderableError {
        error: "Failed to create vertex buffer for the world map!"@,
    }
}

/// The error for an index buffer that the driver did not create.
pub open spec fn index_buffer_refused() -> RenderErrorView {
    RenderErrorView::RenderableError {
        error: "Failed to create index buffer for the world map!"@,
    }
}

/// The error for data given to a renderable without driver objects.
pub open spec fn not_initialised() -> RenderErrorView {
    RenderErrorView::RenderableError {
        error: "Tried to set data for a renderable that isn't initialised!"@,
    }
}

/// The error for an indexed renderable that is given no indices.
pub open spec fn indices_missing() -> RenderErrorView {
    RenderErrorView::RenderableError {
        error: "No index data provided to an indexed renderable!"@,
    }
}

/// The commands that put `vertex_count` vertices of type `T` into `vbo` and
/// describe them to `vao`. They leave both bound.
pub open spec fn upload_vertices<T: Vertex>(vao: u32, vbo: u32, vertex_count: nat) -> Seq<
    GlCommand,
> {
    seq![
        GlCommand::BindBuffer { target: ARRAY_BUFFER, buffer: vbo },
        GlCommand::BufferData {
            target: ARRAY_BUFFER,
            payload: Payload::Vertices,
            bytes: (vertex_count * T::size_in_bytes()) as usize,
        },
        GlCommand::BindVertexArray { array: vao },
    ] + T::attrib_ptrs()
}

/// The commands that put `index_count` indices into `ibo`. They leave it
/// bound.
pub open spec fn upload_indices(ibo: u32, index_count: nat) -> Seq<GlCommand> {
    seq![
        GlCommand::BindBuffer { target: ELEMENT_ARRAY_BUFFER, buffer: ibo },
        GlCommand::BufferData {
            target: ELEMENT_ARRAY_BUFFER,
            payload: Payload::Indices,
            bytes: (index_count * 4) as usize,
        },
    ]
}

/// The commands that leave no vertex array and no buffer bound.
pub open spec fn unbind_all() -> Seq<GlCommand> {
    seq![
        GlCommand::BindVertexArray { array: 0 },
        GlCommand::BindBuffer { target: ARRAY_BUFFER, buffer: 0 },
        GlCommand::BindBuffer { target: ELEMENT_ARRAY_BUFFER, buffer: 0 },
    ]
}

/// Whether the sizes in bytes of a mesh of `vertex_count` vertices of type
/// `T` and, if given, of `index_count` indices fit the machine word.
pub open spec fn fits_driver<T: Vertex>(vertex_count: nat, index_count: Option<nat>) -> bool {
    &&& vertex_count * T::size_in_bytes() <= usize::MAX
    &&& match index_count {
        Some(n) => n * 4 <= usize::MAX,
        None => true,
    }
}

impl<T: Vertex> GlRenderable<T> {
    /// The vertex arrays that this renderable owns.
    pub open spec fn vertex_arrays(self) -> Set<u32> {
        match self {
            GlRenderable::InitialisedWithIndexing { vao, .. } => set![vao],
            GlRenderable::Initialised { vao, .. } => set![vao],
            GlRenderable::Uninitialised { .. } => set![],
        }
    }

    /// The buffers that this renderable owns.
    pub open spec fn buffers(self) -> Set<u32> {
        match self {
            GlRenderable::InitialisedWithIndexing { vbo, ibo, .. } => set![vbo, ibo],
            GlRenderable::Initialised { vbo, .. } => set![vbo],
            GlRenderable::Uninitialised { .. } => set![],
        }
    }

    /// The commands that delete the driver objects of this renderable.
    pub open spec fn release(self) -> Seq<GlCommand> {
        match self {
            GlRenderable::InitialisedWithIndexing { vao, vbo, ibo, .. } => seq![
                GlCommand::DeleteVertexArray { array: vao },
                GlCommand::DeleteBuffer { buffer: vbo },
                GlCommand::DeleteBuffer { buffer: ibo },
            ],
            GlRenderable::Initialised { vao, vbo, .. } => seq![
                GlCommand::DeleteVertexArray { array: vao },
                GlCommand::DeleteBuffer { buffer: vbo },
            ],
            GlRenderable::Uninitialised { .. } => seq![],
        }
    }

    /// The commands that draw this renderable as a list of triangles. There
    /// are none for a renderable without driver objects.
    pub open spec fn draw_commands(self) -> Seq<GlCommand> {
        match self {
            GlRenderable::InitialisedWithIndexing { vao, index_count, .. } => seq![
                GlCommand::BindVertexArray { array: vao },
                GlCommand::DrawElements { count: index_count },
                GlCommand::BindVertexArray { array: 0 },
            ],
            GlRenderable::Initialised { vao, vertex_count, .. } => seq![
                GlCommand::BindVertexArray { array: vao },
                GlCommand::DrawArrays { count: vertex_count },
                GlCommand::BindVertexArray { array: 0 },
            ],
            GlRenderable::Uninitialised { .. } => seq![],
        }
    }

    /// How many answers `initialise` takes before it stops asking.
    pub open spec fn answers_needed(index_count: Option<nat>) -> nat {
        if index_count is Some {
            3
        } else {
            2
        }
    }

    /// The step of `initialise` after the answers `r`, where `pending` are
    /// commands that the caller has issued since the answer before `r`.
    ///
    /// The answers are, in order, the name of the vertex array, the name of
    /// the vertex buffer and, for an indexed mesh, the name of the index
    /// buffer. A name of 0 ends the construction, and what was created for
    /// it is deleted.
    pub open spec fn initialise_from(
        self,
        vertex_count: nat,
        index_count: Option<nat>,
        r: Seq<u32>,
        pending: Seq<GlCommand>,
    ) -> Outline<GlRenderable<T>> {
        if r.len() == 0 {
            Outline::Ask { commands: pending + self.release(), query: GlQuery::GenVertexArray }
        } else if r[0] == 0 {
            Outline::Failed { commands: seq![], error: vertex_array_refused() }
        } else if r.len() == 1 {
            Outline::Ask { commands: seq![], query: GlQuery::GenBuffer }
        } else if r[1] == 0 {
            Outline::Failed {
                commands: seq![GlCommand::DeleteVertexArray { array: r[0] }],
                error: vertex_buffer_refused(),
            }
        } else {
            match index_count {
                None => Outline::Built {
                    commands: upload_vertices::<T>(r[0], r[1], vertex_count) + unbind_all(),
                    value: GlRenderable::Initialised {
                        vao: r[0],
                        vbo: r[1],
                        vertex_count: vertex_count as i32,
                    },
                },
                Some(n) => if r.len() == 2 {
                    Outline::Ask {
                        commands: upload_vertices::<T>(r[0], r[1], vertex_count),
                        query: GlQuery::GenBuffer,
                    }
                } else if r[2] == 0 {
                    Outline::Failed {
                        commands: seq![
                            GlCommand::DeleteVertexArray { array: r[0] },
                            GlCommand::DeleteBuffer { buffer: r[1] },
                        ],
                        error: index_buffer_refused(),
                    }
                } else {
                    Outline::Built {
                        commands: upload_indices(r[2], n) + unbind_all(),
                        value: GlRenderable::InitialisedWithIndexing {
                            vao: r[0],
                            vbo: r[1],
                            ibo: r[2],
                            index_count: n as i32,
                        },
                    }
                },
            }
        }
    }

    /// A renderable without driver objects.
    pub fn new() -> (renderable: GlRenderable<T>)
        ensures
            renderable == (GlRenderable::<T>::Uninitialised { _phantom: PhantomData }),
    {
        GlRenderable::Uninitialised { _phantom: PhantomData }
    }

    /// Whether the renderable has driver objects.
    pub fn is_initialised(&self) -> (initialised: bool)
        ensures
            initialised == !(*self is Uninitialised),
    {
        match self {
            GlRenderable::Uninitialised { .. } => false,
            _ => true,
        }
    }

    /// The commands that draw the renderable as a list of triangles; none
    /// for a renderable without driver objects.
    pub fn draw(&self) -> (commands: Vec<GlCommand>)
        ensures
            commands@ == self.draw_commands(),
    {
        match self {
            GlRenderable::Uninitialised { .. } => Vec::new(),
            GlRenderable::Initialised { vao, vertex_count, .. } => vec![
                GlCommand::BindVertexArray { array: *vao },
                GlCommand::DrawArrays { count: *vertex_count },
                GlCommand::BindVertexArray { array: 0 },
            ],
            GlRenderable::InitialisedWithIndexing { vao, index_count, .. } => vec![
                GlCommand::BindVertexArray { array: *vao },
                GlCommand::DrawElements { count: *index_count },
                GlCommand::BindVertexArray { array: 0 },
            ],
        }
    }

    /// The commands that delete the driver objects, as `uninitialise`
    /// returns them, without giving the objects up.
    pub fn release_commands(&self) -> (commands: Vec<GlCommand>)
        ensures
            commands@ == self.release(),
    {
        match self {
            GlRenderable::Uninitialised { .. } => Vec::new(),
            GlRenderable::Initialised { vao, vbo, .. } => vec![
                GlCommand::DeleteVertexArray { array: *vao },
                GlCommand::DeleteBuffer { buffer: *vbo },
            ],
            GlRenderable::InitialisedWithIndexing { vao, vbo, ibo, .. } => vec![
                GlCommand::DeleteVertexArray { array: *vao },
                GlCommand::DeleteBuffer { buffer: *vbo },
                GlCommand::DeleteBuffer { buffer: *ibo },
            ],
        }
    }

    /// Gives up the driver objects: the commands delete them, and the
    /// renderable is left without any.
    pub fn uninitialise(&mut self) -> (commands: Vec<GlCommand>)
        ensures
            commands@ == old(self).release(),
            *final(self) is Uninitialised,
    {
        let commands = self.release_commands();
        *self = GlRenderable::Uninitialised { _phantom: PhantomData };
        commands
    }

    /// Replaces the mesh data. The commands upload the new lists into the
    /// buffers that the renderable has, and the renderable takes the new
    /// count.
    ///
    /// A renderable without indexing ignores `indices`. One with indexing
    /// needs them. One without driver objects takes no data.
    pub fn update_data(&mut self, vertices: &Vec<T>, indices: Option<&Vec<u32>>) -> (result:
        Result<Vec<GlCommand>, RenderError>)
        requires
            fits_driver::<T>(vertices@.len(), index_len(indices)),
        ensures
            match *old(self) {
                GlRenderable::Uninitialised { .. } => {
                    &&& result matches Err(e) && e@ == not_initialised()
                    &&& *final(self) == *old(self)
                },
                GlRenderable::Initialised { vao, vbo, .. } => {
                    &&& result matches Ok(commands) && commands@ == seq![
                        GlCommand::BindBuffer { target: ARRAY_BUFFER, buffer: vbo },
                        GlCommand::BufferData {
                            target: ARRAY_BUFFER,
                            payload: Payload::Vertices,
                            bytes: (vertices@.len() * T::size_in_bytes()) as usize,
                        },
                        GlCommand::BindBuffer { target: ARRAY_BUFFER, buffer: 0 },
                    ]
                    &&& *final(self) == (GlRenderable::<T>::Initialised {
                        vao,
                        vbo,
                        vertex_count: vertices@.len() as i32,
                    })
                },
                GlRenderable::InitialisedWithIndexing { vao, vbo, ibo, .. } => match indices {
                    None => {
                        &&& result matches Err(e) && e@ == indices_missing()
                        &&& *final(self) == *old(self)
                    },
                    Some(list) => {
                        &&& result matches Ok(commands) && commands@ == seq![
                            GlCommand::BindBuffer { target: ARRAY_BUFFER, buffer: vbo },
                            GlCommand::BufferData {
                                target: ARRAY_BUFFER,
                                payload: Payload::Vertices,
                                bytes: (vertices@.len() * T::size_in_bytes()) as usize,
                            },
                            GlCommand::BindBuffer { target: ELEMENT_ARRAY_BUFFER, buffer: ibo },
                            GlCommand::BufferData {
                                target: ELEMENT_ARRAY_BUFFER,
                                payload: Payload::Indices,
                                bytes: (list@.len() * 4) as usize,
                            },
                            GlCommand::BindBuffer { target: ARRAY_BUFFER, buffer: 0 },
                            GlCommand::BindBuffer { target: ELEMENT_ARRAY_BUFFER, buffer: 0 },
                        ]
                        &&& *final(self) == (GlRenderable::<T>::InitialisedWithIndexing {
                            vao,
                            vbo,
                            ibo,
                            index_count: list@.len() as i32,
                        })
                    },
                },
            },
    {
        match self {
            GlRenderable::Initialised { vbo, vertex_count, .. } => {
                let stride = T::byte_size();
                assert(vertices@.len() * stride <= usize::MAX);
                *vertex_count = #[verifier::truncate]
                (vertices.len() as i32);
                Ok(
                    vec![
                        GlCommand::BindBuffer { target: ARRAY_BUFFER, buffer: *vbo },
                        GlCommand::BufferData {
                            target: ARRAY_BUFFER,
                            payload: Payload::Vertices,
                            bytes: vertices.len() * stride,
                        },
                        GlCommand::BindBuffer { target: ARRAY_BUFFER, buffer: 0 },
                    ],
                )
            },
            GlRenderable::InitialisedWithIndexing { vbo, ibo, index_count, .. } => {
                match indices {
                    Some(list) => {
                        let stride = T::byte_size();
                        assert(vertices@.len() * stride <= usize::MAX);
                        *index_count = #[verifier::truncate]
                        (list.len() as i32);
                        Ok(
                            vec![
                                GlCommand::BindBuffer { target: ARRAY_BUFFER, buffer: *vbo },
                                GlCommand::BufferData {
                                    target: ARRAY_BUFFER,
                                    payload: Payload::Vertices,
                                    bytes: vertices.len() * stride,
                                },
                                GlCommand::BindBuffer {
                                    target: ELEMENT_ARRAY_BUFFER,
                                    buffer: *ibo,
                                },
                                GlCommand::BufferData {
                                    target: ELEMENT_ARRAY_BUFFER,
                                    payload: Payload::Indices,
                                    bytes: list.len() * 4,
                                },
                                GlCommand::BindBuffer { target: ARRAY_BUFFER, buffer: 0 },
                                GlCommand::BindBuffer { target: ELEMENT_ARRAY_BUFFER, buffer: 0 },
                            ],
                        )
                    },
                    None => Err(
                        RenderError::renderable("No index data provided to an indexed renderable!"),
                    ),
                }
            },
            GlRenderable::Uninitialised { .. } => Err(
                RenderError::renderable(
                    "Tried to set data for a renderable that isn't initialised!",
                ),
            ),
        }
    }

    /// One step of giving the renderable a mesh of `vertices` and, if given,
    /// `indices`, after the driver's answers `replies`.
    ///
    /// The first step deletes the driver objects that the renderable has.
    /// Where the construction fails the renderable has none left.
    pub fn initialise(
        &self,
        vertices: &Vec<T>,
        indices: Option<&Vec<u32>>,
        replies: &Vec<u32>,
    ) -> (step: Construction<GlRenderable<T>>)
        requires
            fits_driver::<T>(vertices@.len(), index_len(indices)),
        ensures
            step.outline() == self.initialise_from(
                vertices@.len(),
                index_len(indices),
                replies@,
                seq![],
            ),
    {
        let index_count = match indices {
            Some(list) => Some(list.len()),
            None => None,
        };
        self.initialise_at(vertices.len(), index_count, replies, 0, Vec::new())
    }

    /// `initialise` on the answers from position `start` on, with the
    /// lengths in place of the lists and after the commands `pending`.
    pub fn initialise_at(
        &self,
        vertex_count: usize,
        index_count: Option<usize>,
        replies: &Vec<u32>,
        start: usize,
        pending: Vec<GlCommand>,
    ) -> (step: Construction<GlRenderable<T>>)
        requires
            start <= replies@.len(),
            fits_driver::<T>(
                vertex_count as nat,
                match index_count {
                    Some(n) => Some(n as nat),
                    None => None,
                },
            ),
        ensures
            step.outline() == self.initialise_from(
                vertex_count as nat,
                match index_count {
                    Some(n) => Some(n as nat),
                    None => None,
                },
                replies@.skip(start as int),
                pending@,
            ),
    {
        let available = replies.len() - start;
        let ghost r = replies@.skip(start as int);
        assert(forall|i: int| 0 <= i < r.len() ==> r[i] == replies@[start + i]);
        let mut commands = pending;
        if available == 0 {
            extend(&mut commands, self.release_commands());
            return Construction::Ask { commands, query: GlQuery::GenVertexArray };
        }
        let vao = replies[start];
        if vao == 0 {
            return Construction::Failed {
                commands: Vec::new(),
                error: RenderError::renderable("Failed to create vertex array for the world map!"),
            };
        }
        if available == 1 {
            return Construction::Ask { commands: Vec::new(), query: GlQuery::GenBuffer };
        }
        let vbo = replies[start + 1];
        if vbo == 0 {
            let commands = vec![GlCommand::DeleteVertexArray { array: vao }];
            assert(commands@ =~= seq![GlCommand::DeleteVertexArray { array: r[0] }]);
            return Construction::Failed {
                commands,
                error: RenderError::renderable(
                    "Failed to create vertex buffer for the world map!",
                ),
            };
        }
        let stride = T::byte_size();
        assert(vertex_count * stride <= usize::MAX);
        let mut upload = vec![
            GlCommand::BindBuffer { target: ARRAY_BUFFER, buffer: vbo },
            GlCommand::BufferData {
                target: ARRAY_BUFFER,
                payload: Payload::Vertices,
                bytes: vertex_count * stride,
            },
            GlCommand::BindVertexArray { array: vao },
        ];
        extend(&mut upload, T::initialise_attrib_ptrs());
        match index_count {
            None => {
                extend(&mut upload, Self::unbind_commands());
                Construction::Built {
                    commands: upload,
                    value: GlRenderable::Initialised {
                        vao,
                        vbo,
                        vertex_count: #[verifier::truncate]
                        (vertex_count as i32),
                    },
                }
            },
            Some(n) => {
                if available == 2 {
                    return Construction::Ask { commands: upload, query: GlQuery::GenBuffer };
                }
                let ibo = replies[start + 2];
                if ibo == 0 {
                    return Construction::Failed {
                        commands: vec![
                            GlCommand::DeleteVertexArray { array: vao },
                            GlCommand::DeleteBuffer { buffer: vbo },
                        ],
                        error: RenderError::renderable(
                            "Failed to create index buffer for the world map!",
                        ),
                    };
                }
                let mut finish = vec![
                    GlCommand::BindBuffer { target: ELEMENT_ARRAY_BUFFER, buffer: ibo },
                    GlCommand::BufferData {
                        target: ELEMENT_ARRAY_BUFFER,
                        payload: Payload::Indices,
                        bytes: n * 4,
                    },
                ];
                extend(&mut finish, Self::unbind_commands());
                Construction::Built {
                    commands: finish,
                    value: GlRenderable::InitialisedWithIndexing {
                        vao,
                        vbo,
                        ibo,
                        index_count: #[verifier::truncate]
                        (n as i32),
                    },
                }
            },
        }
    }

    fn unbind_commands() -> (commands: Vec<GlCommand>)
        ensures
            commands@ == unbind_all(),
    {
        vec![
            GlCommand::BindVertexArray { array: 0 },
            GlCommand::BindBuffer { target: ARRAY_BUFFER, buffer: 0 },
            GlCommand::BindBuffer { target: ELEMENT_ARRAY_BUFFER, buffer: 0 },
        ]
    }
}

} // verus!
