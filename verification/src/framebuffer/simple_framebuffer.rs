//! A single-sample offscreen target: one colour texture, one depth and
//! stencil texture, and a quad to draw the result with.

use vstd::prelude::*;
use crate::command::{Colour, GlCommand, GlQuery, UniformName, UniformValue, ONE_BITS, ZERO_BITS,
    MINUS_ONE_BITS};
use crate::constants::{
    CLAMP_TO_EDGE, COLOR_ATTACHMENT0, DEPTH24_STENCIL8, DEPTH_STENCIL, DEPTH_STENCIL_ATTACHMENT,
    DRAW_FRAMEBUFFER, FRAMEBUFFER, NEAREST, READ_FRAMEBUFFER, RGBA, TEXTURE0, TEXTURE1,
    TEXTURE_2D, TEXTURE_MAG_FILTER, TEXTURE_MIN_FILTER, TEXTURE_WRAP_S, TEXTURE_WRAP_T,
    UNSIGNED_BYTE, UNSIGNED_INT_24_8,
};
use crate::framebuffer::status::{
    check_status, depth_refused, framebuffer_refused, status_verdict, texture_refused,
    Completeness, IncompleteAttachmentPolicy,
};
use crate::plan::{extend, Construction, Outline};
use crate::render_error::{RenderError, RenderErrorView};
use crate::renderable::gl_renderable::GlRenderable;
use crate::types::{IVec2, UVec2};
use crate::vertex_2d::Vertex2d;

verus! {

/// A single-sample offscreen render target.
pub struct SimpleFramebuffer {
    fbo_id: u32,
    texture_id: u32,
    depth_buffer_id: u32,
    size: IVec2,
    renderable: GlRenderable<Vertex2d>,
    clear_colour: Colour,
    completeness: Completeness,
}

/// What a `SimpleFramebuffer` holds.
pub struct SimpleFramebufferView {
    /// The name of the framebuffer object.
    pub fbo_id: u32,
    /// The name of the colour texture, attached at colour slot 0.
    pub texture_id: u32,
    /// The name of the depth and stencil texture.
    pub depth_buffer_id: u32,
    /// Width and height of both textures in pixels.
    pub size: IVec2,
    /// The quad that draws the target onto another.
    pub renderable: GlRenderable<Vertex2d>,
    /// The colour that `clear` fills the colour texture with.
    pub clear_colour: Colour,
    /// How the framebuffer passed the completeness check.
    pub completeness: Completeness,
}

/// Opaque black, the colour a new target clears to.
pub open spec fn opaque_black() -> Colour {
    Colour { red: ZERO_BITS, green: ZERO_BITS, blue: ZERO_BITS, alpha: ONE_BITS }
}

/// The six vertices of two triangles that cover the whole clip space, with
/// texture coordinates from `(0, 0)` at the lower left to `(1, 1)`.
pub open spec fn quad_vertices() -> Seq<Vertex2d> {
    seq![
        Vertex2d { x: MINUS_ONE_BITS, y: MINUS_ONE_BITS, u: ZERO_BITS, v: ZERO_BITS },
        Vertex2d { x: ONE_BITS, y: MINUS_ONE_BITS, u: ONE_BITS, v: ZERO_BITS },
        Vertex2d { x: MINUS_ONE_BITS, y: ONE_BITS, u: ZERO_BITS, v: ONE_BITS },
        Vertex2d { x: MINUS_ONE_BITS, y: ONE_BITS, u: ZERO_BITS, v: ONE_BITS },
        Vertex2d { x: ONE_BITS, y: MINUS_ONE_BITS, u: ONE_BITS, v: ZERO_BITS },
        Vertex2d { x: ONE_BITS, y: ONE_BITS, u: ONE_BITS, v: ONE_BITS },
    ]
}

/// The commands that give one texture storage of `width` by `height` pixels,
/// sampled to the nearest texel. They leave the texture bound.
pub open spec fn texture_storage(
    texture: u32,
    internal_format: u32,
    width: i32,
    height: i32,
    format: u32,
    data_type: u32,
) -> Seq<GlCommand> {
    seq![
        GlCommand::BindTexture { target: TEXTURE_2D, texture },
        GlCommand::TexImage2D { internal_format, width, height, format, data_type },
        GlCommand::TexParameteri {
            target: TEXTURE_2D,
            parameter: TEXTURE_MIN_FILTER,
            setting: NEAREST,
        },
        GlCommand::TexParameteri {
            target: TEXTURE_2D,
            parameter: TEXTURE_MAG_FILTER,
            setting: NEAREST,
        },
    ]
}

/// The commands that give the colour texture storage of `width` by `height`
/// pixels with four 8-bit channels.
pub open spec fn colour_storage(texture: u32, width: i32, height: i32) -> Seq<GlCommand> {
    texture_storage(texture, RGBA, width, height, RGBA, UNSIGNED_BYTE)
}

/// The commands that give the depth texture storage of `width` by `height`
/// pixels with 24 bits of depth and 8 of stencil.
pub open spec fn depth_storage(depth: u32, width: i32, height: i32) -> Seq<GlCommand> {
    texture_storage(depth, DEPTH24_STENCIL8, width, height, DEPTH_STENCIL, UNSIGNED_INT_24_8)
}

/// The commands that give the colour texture and the depth and stencil
/// texture storage of `width` by `height` pixels.
pub open spec fn storage(texture: u32, depth: u32, width: i32, height: i32) -> Seq<GlCommand> {
    colour_storage(texture, width, height) + depth_storage(depth, width, height)
}

/// The commands that make the bound texture repeat its edge outside of it.
pub open spec fn clamp() -> Seq<GlCommand> {
    seq![
        GlCommand::TexParameteri {
            target: TEXTURE_2D,
            parameter: TEXTURE_WRAP_S,
            setting: CLAMP_TO_EDGE,
        },
        GlCommand::TexParameteri {
            target: TEXTURE_2D,
            parameter: TEXTURE_WRAP_T,
            setting: CLAMP_TO_EDGE,
        },
    ]
}

/// The commands that attach the colour texture at colour slot 0 of `fbo` and
/// the depth texture at the combined depth and stencil slot. They leave the
/// framebuffer bound.
pub open spec fn attach(fbo: u32, texture: u32, depth: u32) -> Seq<GlCommand> {
    seq![
        GlCommand::BindFramebuffer { target: FRAMEBUFFER, framebuffer: fbo },
        GlCommand::FramebufferTexture2D {
            attachment: COLOR_ATTACHMENT0,
            texture_target: TEXTURE_2D,
            texture,
        },
        GlCommand::FramebufferTexture2D {
            attachment: DEPTH_STENCIL_ATTACHMENT,
            texture_target: TEXTURE_2D,
            texture: depth,
        },
    ]
}

/// The commands that set up a new framebuffer: storage for the colour
/// texture, clamped at its edges, storage for the depth and stencil texture,
/// and the two attached.
pub open spec fn setup(fbo: u32, texture: u32, depth: u32, width: i32, height: i32) -> Seq<
    GlCommand,
> {
    colour_storage(texture, width, height) + clamp() + depth_storage(depth, width, height)
        + attach(fbo, texture, depth)
}

/// The commands that delete a framebuffer and its two textures.
pub open spec fn delete_names(fbo: u32, texture: u32, depth: u32) -> Seq<GlCommand> {
    seq![
        GlCommand::DeleteFramebuffer { framebuffer: fbo },
        GlCommand::DeleteTexture { texture },
        GlCommand::DeleteTexture { texture: depth },
    ]
}

/// The command that makes the window's own framebuffer the draw target.
pub open spec fn draw_to_window() -> Seq<GlCommand> {
    seq![GlCommand::BindFramebuffer { target: DRAW_FRAMEBUFFER, framebuffer: 0 }]
}

impl SimpleFramebufferView {
    /// Every name is a name that the driver gave out, and the quad is ready.
    pub open spec fn well_formed(self) -> bool {
        &&& self.fbo_id != 0
        &&& self.texture_id != 0
        &&& self.depth_buffer_id != 0
        &&& self.renderable matches GlRenderable::Initialised { vao, vbo, vertex_count }
        &&& vao != 0
        &&& vbo != 0
        &&& vertex_count == 6
    }

    /// The framebuffers that the target owns.
    pub open spec fn framebuffers(self) -> Set<u32> {
        set![self.fbo_id]
    }

    /// The textures that the target owns.
    pub open spec fn textures(self) -> Set<u32> {
        set![self.texture_id, self.depth_buffer_id]
    }

    /// The vertex arrays that the target owns.
    pub open spec fn vertex_arrays(self) -> Set<u32> {
        self.renderable.vertex_arrays()
    }

    /// The buffers that the target owns.
    pub open spec fn buffers(self) -> Set<u32> {
        self.renderable.buffers()
    }

    /// The commands that make the target the draw target.
    pub open spec fn bind_draw_target(self) -> Seq<GlCommand> {
        seq![GlCommand::BindFramebuffer { target: DRAW_FRAMEBUFFER, framebuffer: self.fbo_id }]
    }

    /// The commands that clear the target: colour to the clear colour, depth
    /// to the far plane.
    pub open spec fn clear(self) -> Seq<GlCommand> {
        self.bind_draw_target() + seq![
            GlCommand::ClearColour { draw_buffer: 0, colour: self.clear_colour },
            GlCommand::ClearDepth { depth: ONE_BITS },
        ]
    }

    /// The commands that give both textures storage of the size of the
    /// target.
    pub open spec fn resize(self) -> Seq<GlCommand> {
        storage(self.texture_id, self.depth_buffer_id, self.size.x, self.size.y)
    }

    /// The commands that copy the target, scaled to `target_size`, into the
    /// current draw target, and then give up the read binding.
    pub open spec fn blit(self, target_size: UVec2, mask: u32, filter: u32) -> Seq<GlCommand> {
        seq![
            GlCommand::BindFramebuffer { target: READ_FRAMEBUFFER, framebuffer: self.fbo_id },
            GlCommand::BlitFramebuffer {
                source_width: self.size.x,
                source_height: self.size.y,
                target_width: target_size.x,
                target_height: target_size.y,
                mask,
                filter,
            },
            GlCommand::BindFramebuffer { target: READ_FRAMEBUFFER, framebuffer: 0 },
        ]
    }

    /// The commands that bind the colour texture to unit 0 and the depth
    /// texture to unit 1, and tell `program` so.
    pub open spec fn bind_buffer_textures(self, program: u32) -> Seq<GlCommand> {
        seq![
            GlCommand::ActiveTexture { unit: TEXTURE0 },
            GlCommand::BindTexture { target: TEXTURE_2D, texture: self.texture_id },
            GlCommand::ActiveTexture { unit: TEXTURE1 },
            GlCommand::BindTexture { target: TEXTURE_2D, texture: self.depth_buffer_id },
            GlCommand::SetUniform {
                program,
                name: UniformName::FramebufferTexture,
                value: UniformValue::Int(0),
            },
            GlCommand::SetUniform {
                program,
                name: UniformName::DepthBufferTexture,
                value: UniformValue::Int(1),
            },
        ]
    }

    /// The commands that delete everything the target owns.
    pub open spec fn release(self) -> Seq<GlCommand> {
        delete_names(self.fbo_id, self.texture_id, self.depth_buffer_id)
            + self.renderable.release()
    }
}

impl View for SimpleFramebuffer {
    type V = SimpleFramebufferView;

    closed spec fn view(&self) -> SimpleFramebufferView {
        SimpleFramebufferView {
            fbo_id: self.fbo_id,
            texture_id: self.texture_id,
            depth_buffer_id: self.depth_buffer_id,
            size: self.size,
            renderable: self.renderable,
            clear_colour: self.clear_colour,
            completeness: self.completeness,
        }
    }
}

impl SimpleFramebuffer {
    /// What holds of every target: its view is well formed.
    #[verifier::type_invariant]
    pub open spec fn valid(self) -> bool {
        self@.well_formed()
    }

    /// How many answers `new` takes before it stops asking.
    pub open spec fn answers_needed() -> nat {
        6
    }

    /// The step of `new` after the answers `r`, where `pending` are commands
    /// that the caller has issued since the answer before `r`.
    ///
    /// The answers are, in order: the names of the framebuffer, of the colour
    /// texture and of the depth and stencil texture, the status of the
    /// framebuffer once set up, and the names of the vertex array and of the
    /// vertex buffer of the quad. A name of 0 or a status that does not pass
    /// ends the construction, and everything created for it is deleted.
    pub open spec fn new_from(
        width: i32,
        height: i32,
        policy: IncompleteAttachmentPolicy,
        r: Seq<u32>,
        pending: Seq<GlCommand>,
    ) -> Outline<SimpleFramebufferView> {
        if r.len() == 0 {
            Outline::Ask { commands: pending, query: GlQuery::GenFramebuffer }
        } else if r[0] == 0 {
            Outline::Failed { commands: seq![], error: framebuffer_refused() }
        } else if r.len() == 1 {
            Outline::Ask { commands: seq![], query: GlQuery::GenTexture }
        } else if r[1] == 0 {
            Outline::Failed {
                commands: seq![GlCommand::DeleteFramebuffer { framebuffer: r[0] }],
                error: texture_refused(),
            }
        } else if r.len() == 2 {
            Outline::Ask { commands: seq![], query: GlQuery::GenTexture }
        } else if r[2] == 0 {
            Outline::Failed {
                commands: seq![
                    GlCommand::DeleteFramebuffer { framebuffer: r[0] },
                    GlCommand::DeleteTexture { texture: r[1] },
                ],
                error: depth_refused(),
            }
        } else if r.len() == 3 {
            Outline::Ask {
                commands: setup(r[0], r[1], r[2], width, height),
                query: GlQuery::CheckFramebufferStatus,
            }
        } else {
            match status_verdict(r[3], policy) {
                Err(text) => Outline::Failed {
                    commands: delete_names(r[0], r[1], r[2]),
                    error: RenderErrorView::BufferError { error: text },
                },
                Ok(completeness) => match (GlRenderable::<Vertex2d>::Uninitialised {
                    _phantom: core::marker::PhantomData,
                }).initialise_from(6, None, r.skip(4), draw_to_window()) {
                    Outline::Ask { commands, query } => Outline::Ask { commands, query },
                    Outline::Failed { commands, error } => Outline::Failed {
                        commands: commands + delete_names(r[0], r[1], r[2]),
                        error,
                    },
                    Outline::Built { commands, value } => Outline::Built {
                        commands,
                        value: SimpleFramebufferView {
                            fbo_id: r[0],
                            texture_id: r[1],
                            depth_buffer_id: r[2],
                            size: IVec2 { x: width, y: height },
                            renderable: value,
                            clear_colour: opaque_black(),
                            completeness,
                        },
                    },
                },
            }
        }
    }

    /// The vertices of the quad, for the backend to upload where the
    /// commands of `new` ask for the vertex payload.
    pub fn quad() -> (vertices: Vec<Vertex2d>)
        ensures
            vertices@ == quad_vertices(),
    {
        vec![
            Vertex2d { x: MINUS_ONE_BITS, y: MINUS_ONE_BITS, u: ZERO_BITS, v: ZERO_BITS },
            Vertex2d { x: ONE_BITS, y: MINUS_ONE_BITS, u: ONE_BITS, v: ZERO_BITS },
            Vertex2d { x: MINUS_ONE_BITS, y: ONE_BITS, u: ZERO_BITS, v: ONE_BITS },
            Vertex2d { x: MINUS_ONE_BITS, y: ONE_BITS, u: ZERO_BITS, v: ONE_BITS },
            Vertex2d { x: ONE_BITS, y: MINUS_ONE_BITS, u: ONE_BITS, v: ZERO_BITS },
            Vertex2d { x: ONE_BITS, y: ONE_BITS, u: ONE_BITS, v: ONE_BITS },
        ]
    }

    /// One step of building a target of `width` by `height` pixels, after
    /// the driver's answers `replies`.
    pub fn new(
        width: i32,
        height: i32,
        policy: IncompleteAttachmentPolicy,
        replies: &Vec<u32>,
    ) -> (step: Construction<SimpleFramebuffer>)
        ensures
            step.outline() == Self::new_from(width, height, policy, replies@, seq![]),
    {
        assert(replies@.skip(0) =~= replies@);
        Self::new_at(width, height, policy, replies, 0, Vec::new())
    }

    /// `new` on the answers from position `start` on, after the commands
    /// `pending`.
    pub fn new_at(
        width: i32,
        height: i32,
        policy: IncompleteAttachmentPolicy,
        replies: &Vec<u32>,
        start: usize,
        pending: Vec<GlCommand>,
    ) -> (step: Construction<SimpleFramebuffer>)
        requires
            start <= replies@.len(),
        ensures
            step.outline() == Self::new_from(
                width,
                height,
                policy,
                replies@.skip(start as int),
                pending@,
            ),
    {
        let available = replies.len() - start;
        let ghost r = replies@.skip(start as int);
        assert(forall|i: int| 0 <= i < r.len() ==> r[i] == replies@[start + i]);
        if available == 0 {
            return Construction::Ask { commands: pending, query: GlQuery::GenFramebuffer };
        }
        let fbo = replies[start];
        if fbo == 0 {
            return Construction::Failed {
                commands: Vec::new(),
                error: RenderError::buffer("Failed to create framebuffer!"),
            };
        }
        if available == 1 {
            return Construction::Ask { commands: Vec::new(), query: GlQuery::GenTexture };
        }
        let texture = replies[start + 1];
        if texture == 0 {
            let commands = vec![GlCommand::DeleteFramebuffer { framebuffer: fbo }];
            assert(commands@ =~= seq![GlCommand::DeleteFramebuffer { framebuffer: r[0] }]);
            return Construction::Failed {
                commands,
                error: RenderError::buffer("Failed to create texture for framebuffer!"),
            };
        }
        if available == 2 {
            return Construction::Ask { commands: Vec::new(), query: GlQuery::GenTexture };
        }
        let depth = replies[start + 2];
        if depth == 0 {
            let commands = vec![
                GlCommand::DeleteFramebuffer { framebuffer: fbo },
                GlCommand::DeleteTexture { texture },
            ];
            assert(commands@ =~= seq![
                GlCommand::DeleteFramebuffer { framebuffer: r[0] },
                GlCommand::DeleteTexture { texture: r[1] },
            ]);
            return Construction::Failed {
                commands,
                error: RenderError::buffer(
                    "Failed to create depth and stencil buffer for framebuffer!",
                ),
            };
        }
        if available == 3 {
            return Construction::Ask {
                commands: setup_commands(fbo, texture, depth, width, height),
                query: GlQuery::CheckFramebufferStatus,
            };
        }
        let completeness = match check_status(replies[start + 3], policy) {
            Ok(completeness) => completeness,
            Err(error) => {
                return Construction::Failed {
                    commands: delete_commands(fbo, texture, depth),
                    error,
                };
            },
        };
        let blank = GlRenderable::<Vertex2d>::new();
        assert(replies@.skip(start + 4) =~= r.skip(4));
        let unbind = vec![GlCommand::BindFramebuffer { target: DRAW_FRAMEBUFFER, framebuffer: 0 }];
        assert(unbind@ =~= draw_to_window());
        let quad = blank.initialise_at(6, None, replies, start + 4, unbind);
        assert(quad.outline() == blank.initialise_from(6, None, r.skip(4), draw_to_window()));
        match quad {
            Construction::Ask { commands, query } => Construction::Ask { commands, query },
            Construction::Failed { commands, error } => {
                let mut commands = commands;
                extend(&mut commands, delete_commands(fbo, texture, depth));
                Construction::Failed { commands, error }
            },
            Construction::Built { commands, value } => Construction::Built {
                commands,
                value: SimpleFramebuffer {
                    fbo_id: fbo,
                    texture_id: texture,
                    depth_buffer_id: depth,
                    size: IVec2 { x: width, y: height },
                    renderable: value,
                    clear_colour: Colour {
                        red: ZERO_BITS,
                        green: ZERO_BITS,
                        blue: ZERO_BITS,
                        alpha: ONE_BITS,
                    },
                    completeness,
                },
            },
        }
    }

    /// The name of the framebuffer object. It is never 0.
    pub fn fbo_id(&self) -> (name: u32)
        ensures
            name == self@.fbo_id,
            name != 0,
    {
        proof {
            use_type_invariant(self);
        }
        self.fbo_id
    }

    /// The name of the colour texture. It is never 0.
    pub fn texture_id(&self) -> (name: u32)
        ensures
            name == self@.texture_id,
            name != 0,
    {
        proof {
            use_type_invariant(self);
        }
        self.texture_id
    }

    /// The name of the depth and stencil texture. It is never 0.
    pub fn depth_buffer_id(&self) -> (name: u32)
        ensures
            name == self@.depth_buffer_id,
            name != 0,
    {
        proof {
            use_type_invariant(self);
        }
        self.depth_buffer_id
    }

    /// Width and height in pixels.
    pub fn size(&self) -> (size: IVec2)
        ensures
            size == self@.size,
    {
        self.size
    }

    /// The colour that `clear` fills the colour texture with.
    pub fn clear_colour(&self) -> (colour: Colour)
        ensures
            colour == self@.clear_colour,
    {
        self.clear_colour
    }

    /// How the framebuffer passed the completeness check.
    pub fn completeness(&self) -> (completeness: Completeness)
        ensures
            completeness == self@.completeness,
    {
        self.completeness
    }

    /// The quad that draws the target onto another.
    pub fn renderable(&self) -> (quad: &GlRenderable<Vertex2d>)
        ensures
            *quad == self@.renderable,
    {
        &self.renderable
    }

    /// Gives both textures storage of `width` by `height` pixels. The names
    /// stay as they are, and nothing is created or deleted. The driver counts
    /// pixels in signed 32-bit numbers: a width or height beyond them is taken
    /// as the driver would take it, cut to 32 bits.
    pub fn resize(&mut self, width: u32, height: u32) -> (commands: Vec<GlCommand>)
        ensures
            final(self)@ == (SimpleFramebufferView {
                size: IVec2 { x: width as i32, y: height as i32 },
                ..old(self)@
            }),
            width <= i32::MAX ==> final(self)@.size.x == width,
            height <= i32::MAX ==> final(self)@.size.y == height,
            commands@ == final(self)@.resize(),
    {
        self.set_size(width, height);
        storage_commands(self.texture_id, self.depth_buffer_id, self.size.x, self.size.y)
    }

    /// Records a new size. The storage has to follow: see `resize`.
    pub(crate) fn set_size(&mut self, width: u32, height: u32)
        ensures
            final(self)@ == (SimpleFramebufferView {
                size: IVec2 { x: width as i32, y: height as i32 },
                ..old(self)@
            }),
        no_unwind
    {
        proof {
            use_type_invariant(&*self);
        }
        self.size = IVec2 {
            x: #[verifier::truncate]
            (width as i32),
            y: #[verifier::truncate]
            (height as i32),
        };
    }

    /// The commands that give both textures storage of the size that the
    /// target has.
    pub(crate) fn storage_commands(&self) -> (commands: Vec<GlCommand>)
        ensures
            commands@ == self@.resize(),
    {
        storage_commands(self.texture_id, self.depth_buffer_id, self.size.x, self.size.y)
    }

    /// Makes the target the destination of the draws that follow.
    pub fn bind_draw_target(&self) -> (commands: Vec<GlCommand>)
        ensures
            commands@ == self@.bind_draw_target(),
    {
        vec![GlCommand::BindFramebuffer { target: DRAW_FRAMEBUFFER, framebuffer: self.fbo_id }]
    }

    /// Makes the window's own framebuffer the destination of the draws that
    /// follow.
    pub fn bind_default_framebuffer() -> (commands: Vec<GlCommand>)
        ensures
            commands@ == draw_to_window(),
    {
        vec![GlCommand::BindFramebuffer { target: DRAW_FRAMEBUFFER, framebuffer: 0 }]
    }

    /// Binds the two textures for `program` and draws the quad.
    pub fn draw_this_framebuffer(&self, program: u32) -> (commands: Vec<GlCommand>)
        ensures
            commands@ == self@.bind_buffer_textures(program) + self@.renderable.draw_commands(),
    {
        let mut commands = self.bind_buffer_textures(program);
        extend(&mut commands, self.renderable.draw());
        commands
    }

    /// Copies the target into the current draw target, scaled from its own
    /// size to `target_size`. `mask` selects the buffers to copy and
    /// `filter` how to resample. The read binding is given up afterwards.
    pub fn blit(&self, target_size: UVec2, mask: u32, filter: u32) -> (commands: Vec<GlCommand>)
        ensures
            commands@ == self@.blit(target_size, mask, filter),
    {
        vec![
            GlCommand::BindFramebuffer { target: READ_FRAMEBUFFER, framebuffer: self.fbo_id },
            GlCommand::BlitFramebuffer {
                source_width: self.size.x,
                source_height: self.size.y,
                target_width: target_size.x,
                target_height: target_size.y,
                mask,
                filter,
            },
            GlCommand::BindFramebuffer { target: READ_FRAMEBUFFER, framebuffer: 0 },
        ]
    }

    /// Binds the colour texture to unit 0 and the depth texture to unit 1,
    /// and sets the two sampler uniforms of `program` to these units.
    pub fn bind_buffer_textures(&self, program: u32) -> (commands: Vec<GlCommand>)
        ensures
            commands@ == self@.bind_buffer_textures(program),
    {
        vec![
            GlCommand::ActiveTexture { unit: TEXTURE0 },
            GlCommand::BindTexture { target: TEXTURE_2D, texture: self.texture_id },
            GlCommand::ActiveTexture { unit: TEXTURE1 },
            GlCommand::BindTexture { target: TEXTURE_2D, texture: self.depth_buffer_id },
            GlCommand::SetUniform {
                program,
                name: UniformName::FramebufferTexture,
                value: UniformValue::Int(0),
            },
            GlCommand::SetUniform {
                program,
                name: UniformName::DepthBufferTexture,
                value: UniformValue::Int(1),
            },
        ]
    }

    /// Binds the colour texture for sampling at texture unit `unit`. Units
    /// are counted on from the first one, and the count starts over where the
    /// numbers end.
    pub fn bind_colour_as_texture(&self, unit: u32) -> (commands: Vec<GlCommand>)
        ensures
            commands@ == seq![
                GlCommand::ActiveTexture { unit: TEXTURE0.wrapping_add(unit) },
                GlCommand::BindTexture { target: TEXTURE_2D, texture: self@.texture_id },
            ],
    {
        vec![
            GlCommand::ActiveTexture { unit: TEXTURE0.wrapping_add(unit) },
            GlCommand::BindTexture { target: TEXTURE_2D, texture: self.texture_id },
        ]
    }

    /// Binds the depth and stencil texture for sampling at texture unit
    /// `unit`.
    pub fn bind_depth_as_texture(&self, unit: u32) -> (commands: Vec<GlCommand>)
        ensures
            commands@ == seq![
                GlCommand::ActiveTexture { unit: TEXTURE0.wrapping_add(unit) },
                GlCommand::BindTexture { target: TEXTURE_2D, texture: self@.depth_buffer_id },
            ],
    {
        vec![
            GlCommand::ActiveTexture { unit: TEXTURE0.wrapping_add(unit) },
            GlCommand::BindTexture { target: TEXTURE_2D, texture: self.depth_buffer_id },
        ]
    }

    /// Makes the target the draw target and clears it: colour to the clear
    /// colour, depth to the far plane.
    pub fn clear(&self) -> (commands: Vec<GlCommand>)
        ensures
            commands@ == self@.clear(),
    {
        let commands = vec![
            GlCommand::BindFramebuffer { target: DRAW_FRAMEBUFFER, framebuffer: self.fbo_id },
            GlCommand::ClearColour { draw_buffer: 0, colour: self.clear_colour },
            GlCommand::ClearDepth { depth: ONE_BITS },
        ];
        assert(commands@ =~= self@.clear());
        commands
    }

    /// Sets the colour that `clear` fills the colour texture with.
    pub fn set_clear_colour(&mut self, colour: Colour)
        ensures
            final(self)@ == (SimpleFramebufferView { clear_colour: colour, ..old(self)@ }),
    {
        proof {
            use_type_invariant(&*self);
        }
        self.clear_colour = colour;
    }

    /// The commands that `destroy` returns, without giving the target up.
    pub fn release_commands(&self) -> (commands: Vec<GlCommand>)
        ensures
            commands@ == self@.release(),
    {
        let mut commands = delete_commands(self.fbo_id, self.texture_id, self.depth_buffer_id);
        extend(&mut commands, self.renderable.release_commands());
        commands
    }

    /// Gives the target up: the commands delete the framebuffer, its two
    /// textures and the objects of the quad.
    pub fn destroy(self) -> (commands: Vec<GlCommand>)
        ensures
            commands@ == self@.release(),
    {
        self.release_commands()
    }
}

/// With a driver that hands out a name whenever it is asked for one and
/// calls the framebuffer complete, construction succeeds, whatever the width
/// and the height: the target is built from the names given, at the size asked
/// for, well formed and complete.
pub proof fn lemma_new_succeeds(
    width: i32,
    height: i32,
    policy: IncompleteAttachmentPolicy,
    r: Seq<u32>,
    pending: Seq<GlCommand>,
)
    requires
        r.len() >= 6,
        r[0] != 0,
        r[1] != 0,
        r[2] != 0,
        r[3] == crate::constants::FRAMEBUFFER_COMPLETE,
        r[4] != 0,
        r[5] != 0,
    ensures
        SimpleFramebuffer::new_from(width, height, policy, r, pending) matches Outline::Built {
            value,
            ..
        } && {
            &&& value.well_formed()
            &&& value.completeness == Completeness::Complete
            &&& value.size == (IVec2 { x: width, y: height })
            &&& value.fbo_id == r[0]
            &&& value.texture_id == r[1]
            &&& value.depth_buffer_id == r[2]
        },
{
}

/// Construction asks only while it has had fewer than six answers, and what
/// it builds is well formed.
pub proof fn lemma_new_ends(
    width: i32,
    height: i32,
    policy: IncompleteAttachmentPolicy,
    r: Seq<u32>,
    pending: Seq<GlCommand>,
)
    ensures
        SimpleFramebuffer::new_from(width, height, policy, r, pending) is Ask ==> r.len() < 6,
        SimpleFramebuffer::new_from(width, height, policy, r, pending) matches Outline::Built {
            value,
            ..
        } ==> value.well_formed() && r.len() >= 6,
{
}

/// Resizing twice to one size leaves the target as resizing once does, and
/// asks for the same commands both times.
pub proof fn lemma_resize_idempotent(target: SimpleFramebufferView, size: IVec2)
    ensures
        ({
            let once = SimpleFramebufferView { size, ..target };
            let twice = SimpleFramebufferView { size, ..once };
            twice == once && twice.resize() == once.resize()
        }),
{
}

/// The commands of `storage`.
pub fn storage_commands(texture: u32, depth: u32, width: i32, height: i32) -> (commands: Vec<
    GlCommand,
>)
    ensures
        commands@ == storage(texture, depth, width, height),
{
    let commands = vec![
        GlCommand::BindTexture { target: TEXTURE_2D, texture },
        GlCommand::TexImage2D {
            internal_format: RGBA,
            width,
            height,
            format: RGBA,
            data_type: UNSIGNED_BYTE,
        },
        GlCommand::TexParameteri {
            target: TEXTURE_2D,
            parameter: TEXTURE_MIN_FILTER,
            setting: NEAREST,
        },
        GlCommand::TexParameteri {
            target: TEXTURE_2D,
            parameter: TEXTURE_MAG_FILTER,
            setting: NEAREST,
        },
        GlCommand::BindTexture { target: TEXTURE_2D, texture: depth },
        GlCommand::TexImage2D {
            internal_format: DEPTH24_STENCIL8,
            width,
            height,
            format: DEPTH_STENCIL,
            data_type: UNSIGNED_INT_24_8,
        },
        GlCommand::TexParameteri {
            target: TEXTURE_2D,
            parameter: TEXTURE_MIN_FILTER,
            setting: NEAREST,
        },
        GlCommand::TexParameteri {
            target: TEXTURE_2D,
            parameter: TEXTURE_MAG_FILTER,
            setting: NEAREST,
        },
    ];
    assert(commands@ =~= storage(texture, depth, width, height));
    commands
}

fn setup_commands(fbo: u32, texture: u32, depth: u32, width: i32, height: i32) -> (commands: Vec<
    GlCommand,
>)
    ensures
        commands@ == setup(fbo, texture, depth, width, height),
{
    let commands = vec![
        GlCommand::BindTexture { target: TEXTURE_2D, texture },
        GlCommand::TexImage2D {
            internal_format: RGBA,
            width,
            height,
            format: RGBA,
            data_type: UNSIGNED_BYTE,
        },
        GlCommand::TexParameteri {
            target: TEXTURE_2D,
            parameter: TEXTURE_MIN_FILTER,
            setting: NEAREST,
        },
        GlCommand::TexParameteri {
            target: TEXTURE_2D,
            parameter: TEXTURE_MAG_FILTER,
            setting: NEAREST,
        },
        GlCommand::TexParameteri {
            target: TEXTURE_2D,
            parameter: TEXTURE_WRAP_S,
            setting: CLAMP_TO_EDGE,
        },
        GlCommand::TexParameteri {
            target: TEXTURE_2D,
            parameter: TEXTURE_WRAP_T,
            setting: CLAMP_TO_EDGE,
        },
        GlCommand::BindTexture { target: TEXTURE_2D, texture: depth },
        GlCommand::TexImage2D {
            internal_format: DEPTH24_STENCIL8,
            width,
            height,
            format: DEPTH_STENCIL,
            data_type: UNSIGNED_INT_24_8,
        },
        GlCommand::TexParameteri {
            target: TEXTURE_2D,
            parameter: TEXTURE_MIN_FILTER,
            setting: NEAREST,
        },
        GlCommand::TexParameteri {
            target: TEXTURE_2D,
            parameter: TEXTURE_MAG_FILTER,
            setting: NEAREST,
        },
        GlCommand::BindFramebuffer { target: FRAMEBUFFER, framebuffer: fbo },
        GlCommand::FramebufferTexture2D {
            attachment: COLOR_ATTACHMENT0,
            texture_target: TEXTURE_2D,
            texture,
        },
        GlCommand::FramebufferTexture2D {
            attachment: DEPTH_STENCIL_ATTACHMENT,
            texture_target: TEXTURE_2D,
            texture: depth,
        },
    ];
    assert(commands@ =~= setup(fbo, texture, depth, width, height));
    commands
}

/// The commands of `delete_names`.
pub fn delete_commands(fbo: u32, texture: u32, depth: u32) -> (commands: Vec<GlCommand>)
    ensures
        commands@ == delete_names(fbo, texture, depth),
{
    vec![
        GlCommand::DeleteFramebuffer { framebuffer: fbo },
        GlCommand::DeleteTexture { texture },
        GlCommand::DeleteTexture { texture: depth },
    ]
}

} // verus!
