//! What the commands mean: a model of the part of a graphics context that
//! render targets touch.
//!
//! The model keeps the objects that are alive, what is bound where, which
//! texture hangs at which attachment point, the storage of each texture and,
//! as far as it is known, what fills it. It says what each command does to
//! this state and how the context answers a query.

use vstd::prelude::*;
use crate::command::{Colour, GlCommand, GlQuery};
use crate::constants::{
    COLOR_ATTACHMENT0, COLOR_ATTACHMENT1, COLOR_BUFFER_BIT, DEPTH_BUFFER_BIT,
    DEPTH_STENCIL_ATTACHMENT, DEPTH_TEST, DRAW_FRAMEBUFFER, FRAMEBUFFER, FRAMEBUFFER_COMPLETE,
    FRAMEBUFFER_INCOMPLETE_ATTACHMENT, FRAMEBUFFER_INCOMPLETE_MISSING_ATTACHMENT,
    FRAMEBUFFER_INCOMPLETE_MULTISAMPLE, ONE, READ_FRAMEBUFFER, TEXTURE0, TEXTURE_2D,
    TEXTURE_2D_MULTISAMPLE,
};

verus! {

/// What is known of the contents of an image.
#[derive(Debug, Clone, Copy, PartialEq, Eq, Structural)]
pub enum Fill {
    /// Nothing.
    Unknown,
    /// Every pixel has this colour.
    Solid(Colour),
    /// Every pixel has this depth, given by its bit pattern.
    Depth(u32),
}

/// A texture: its storage and its contents.
#[derive(Debug, Clone, Copy, PartialEq, Eq, Structural)]
pub struct Texture {
    pub width: i32,
    pub height: i32,
    /// The samples per pixel; 0 for a single-sample texture.
    pub samples: i32,
    pub fill: Fill,
}

/// A framebuffer object: the textures at its attachment points, 0 for none,
/// and the colour attachment that reads take.
#[derive(Debug, Clone, Copy, PartialEq, Eq, Structural)]
pub struct Framebuffer {
    pub colour0: u32,
    pub colour1: u32,
    pub depth_stencil: u32,
    pub read_buffer: u32,
}

/// The textures bound at one texture unit.
#[derive(Debug, Clone, Copy, PartialEq, Eq, Structural)]
pub struct Binding {
    pub flat: u32,
    pub multisample: u32,
}

/// The state of the context.
pub struct ContextState {
    /// The framebuffer objects that are alive, by name.
    pub framebuffers: Map<u32, Framebuffer>,
    /// The textures that are alive, by name.
    pub textures: Map<u32, Texture>,
    /// The names of the vertex arrays that are alive.
    pub vertex_arrays: Set<u32>,
    /// The names of the buffers that are alive.
    pub buffers: Set<u32>,
    /// The framebuffer that draws go to; 0 is the window.
    pub draw_framebuffer: u32,
    /// The framebuffer that reads come from; 0 is the window.
    pub read_framebuffer: u32,
    /// The texture unit that texture commands speak to.
    pub active_unit: u32,
    /// The textures bound at each unit that has had one bound.
    pub bindings: Map<u32, Binding>,
    /// What fills the window.
    pub window: Fill,
    /// Whether depth testing is on.
    pub depth_test: bool,
    /// The source and destination factors of blending.
    pub blend: (u32, u32),
}

/// A framebuffer object as the driver makes it.
pub open spec fn new_framebuffer() -> Framebuffer {
    Framebuffer { colour0: 0, colour1: 0, depth_stencil: 0, read_buffer: COLOR_ATTACHMENT0 }
}

/// A texture as the driver makes it: without storage.
pub open spec fn new_texture() -> Texture {
    Texture { width: 0, height: 0, samples: 0, fill: Fill::Unknown }
}

/// Whether `mask` selects the colour buffer.
pub open spec fn takes_colour(mask: u32) -> bool {
    mask & COLOR_BUFFER_BIT != 0
}

/// Whether `mask` selects the depth buffer.
pub open spec fn takes_depth(mask: u32) -> bool {
    mask & DEPTH_BUFFER_BIT != 0
}

impl ContextState {
    /// A context in which nothing was created yet.
    pub open spec fn fresh() -> ContextState {
        ContextState {
            framebuffers: Map::empty(),
            textures: Map::empty(),
            vertex_arrays: Set::empty(),
            buffers: Set::empty(),
            draw_framebuffer: 0,
            read_framebuffer: 0,
            active_unit: TEXTURE0,
            bindings: Map::empty(),
            window: Fill::Unknown,
            depth_test: false,
            blend: (ONE, 0),
        }
    }

    /// The textures bound at the active unit.
    pub open spec fn binding(self) -> Binding {
        if self.bindings.contains_key(self.active_unit) {
            self.bindings[self.active_unit]
        } else {
            Binding { flat: 0, multisample: 0 }
        }
    }

    /// This state with `fill` as the contents of the texture `name`, where
    /// that texture is alive.
    pub open spec fn filled(self, name: u32, fill: Fill) -> ContextState {
        if self.textures.contains_key(name) {
            ContextState {
                textures: self.textures.insert(name, Texture { fill, ..self.textures[name] }),
                ..self
            }
        } else {
            self
        }
    }

    /// This state with the texture `name`, where it is alive and not 0, given
    /// new storage, its contents unknown.
    pub open spec fn stored(
        self,
        name: u32,
        width: i32,
        height: i32,
        samples: i32,
    ) -> ContextState {
        if self.textures.contains_key(name) {
            ContextState {
                textures: self.textures.insert(
                    name,
                    Texture { width, height, samples, fill: Fill::Unknown },
                ),
                ..self
            }
        } else {
            self
        }
    }

    /// What is known of the contents of the texture `name`.
    pub open spec fn fill_of(self, name: u32) -> Fill {
        if self.textures.contains_key(name) {
            self.textures[name].fill
        } else {
            Fill::Unknown
        }
    }

    /// What a read of colour takes: the window, or the texture at the read
    /// attachment of the read framebuffer.
    pub open spec fn read_colour(self) -> Fill {
        if self.read_framebuffer == 0 {
            self.window
        } else if self.framebuffers.contains_key(self.read_framebuffer) {
            let source = self.framebuffers[self.read_framebuffer];
            if source.read_buffer == COLOR_ATTACHMENT1 {
                self.fill_of(source.colour1)
            } else {
                self.fill_of(source.colour0)
            }
        } else {
            Fill::Unknown
        }
    }

    /// What a read of depth takes.
    pub open spec fn read_depth(self) -> Fill {
        if self.framebuffers.contains_key(self.read_framebuffer) {
            self.fill_of(self.framebuffers[self.read_framebuffer].depth_stencil)
        } else {
            Fill::Unknown
        }
    }

    /// This state with `fill` in colour output `slot` of the draw target.
    /// The window has the one output 0.
    pub open spec fn colour_written(self, slot: int, fill: Fill) -> ContextState {
        if self.draw_framebuffer == 0 {
            if slot == 0 {
                ContextState { window: fill, ..self }
            } else {
                self
            }
        } else if self.framebuffers.contains_key(self.draw_framebuffer) {
            let target = self.framebuffers[self.draw_framebuffer];
            if slot == 0 {
                self.filled(target.colour0, fill)
            } else if slot == 1 {
                self.filled(target.colour1, fill)
            } else {
                self
            }
        } else {
            self
        }
    }

    /// This state with `fill` in the depth attachment of the draw target.
    pub open spec fn depth_written(self, fill: Fill) -> ContextState {
        if self.framebuffers.contains_key(self.draw_framebuffer) {
            self.filled(self.framebuffers[self.draw_framebuffer].depth_stencil, fill)
        } else {
            self
        }
    }

    /// This state after a draw call: what the draw target holds is no longer
    /// known.
    pub open spec fn drawn(self) -> ContextState {
        self.colour_written(0, Fill::Unknown).colour_written(1, Fill::Unknown).depth_written(
            Fill::Unknown,
        )
    }

    /// Whether the texture `name` can back an attachment: it is alive and has
    /// storage of at least one pixel.
    pub open spec fn usable(self, name: u32) -> bool {
        &&& self.textures.contains_key(name)
        &&& self.textures[name].width > 0
        &&& self.textures[name].height > 0
        &&& self.textures[name].samples >= 0
    }

    /// The samples of what hangs at an attachment point, if anything does.
    pub open spec fn samples_at(self, name: u32) -> Option<i32> {
        if name != 0 && self.textures.contains_key(name) {
            Some(self.textures[name].samples)
        } else {
            None
        }
    }

    /// The status of the framebuffer that draws go to.
    ///
    /// The window is complete. A framebuffer object is complete where
    /// something is attached, every attachment is a texture with storage,
    /// and all attachments have one sample count.
    pub open spec fn status(self) -> u32 {
        if self.draw_framebuffer == 0 {
            FRAMEBUFFER_COMPLETE
        } else if !self.framebuffers.contains_key(self.draw_framebuffer) {
            FRAMEBUFFER_INCOMPLETE_MISSING_ATTACHMENT
        } else {
            let target = self.framebuffers[self.draw_framebuffer];
            if target.colour0 == 0 && target.colour1 == 0 && target.depth_stencil == 0 {
                FRAMEBUFFER_INCOMPLETE_MISSING_ATTACHMENT
            } else if (target.colour0 != 0 && !self.usable(target.colour0)) || (target.colour1 != 0
                && !self.usable(target.colour1)) || (target.depth_stencil != 0 && !self.usable(
                target.depth_stencil,
            )) {
                FRAMEBUFFER_INCOMPLETE_ATTACHMENT
            } else if !same_samples(
                self.samples_at(target.colour0),
                self.samples_at(target.colour1),
            ) || !same_samples(
                self.samples_at(target.colour0),
                self.samples_at(target.depth_stencil),
            ) || !same_samples(
                self.samples_at(target.colour1),
                self.samples_at(target.depth_stencil),
            ) {
                FRAMEBUFFER_INCOMPLETE_MULTISAMPLE
            } else {
                FRAMEBUFFER_COMPLETE
            }
        }
    }

    /// The state after one command.
    pub open spec fn apply(self, command: GlCommand) -> ContextState {
        match command {
            GlCommand::BindTexture { target, texture } => {
                if target == TEXTURE_2D {
                    ContextState {
                        bindings: self.bindings.insert(
                            self.active_unit,
                            Binding { flat: texture, ..self.binding() },
                        ),
                        ..self
                    }
                } else if target == TEXTURE_2D_MULTISAMPLE {
                    ContextState {
                        bindings: self.bindings.insert(
                            self.active_unit,
                            Binding { multisample: texture, ..self.binding() },
                        ),
                        ..self
                    }
                } else {
                    self
                }
            },
            GlCommand::TexImage2D { width, height, .. } => self.stored(
                self.binding().flat,
                width,
                height,
                0,
            ),
            GlCommand::TexImage2DData { width, height, .. } => self.stored(
                self.binding().flat,
                width,
                height,
                0,
            ),
            GlCommand::TexImage2DMultisample { samples, width, height, .. } => if samples >= 1 {
                self.stored(self.binding().multisample, width, height, samples)
            } else {
                self
            },
            GlCommand::ActiveTexture { unit } => ContextState { active_unit: unit, ..self },
            GlCommand::DeleteTexture { texture } => ContextState {
                textures: self.textures.remove(texture),
                ..self
            },
            GlCommand::BindFramebuffer { target, framebuffer } => {
                if target == DRAW_FRAMEBUFFER {
                    ContextState { draw_framebuffer: framebuffer, ..self }
                } else if target == READ_FRAMEBUFFER {
                    ContextState { read_framebuffer: framebuffer, ..self }
                } else if target == FRAMEBUFFER {
                    ContextState {
                        draw_framebuffer: framebuffer,
                        read_framebuffer: framebuffer,
                        ..self
                    }
                } else {
                    self
                }
            },
            GlCommand::FramebufferTexture2D { attachment, texture, .. } => {
                if self.framebuffers.contains_key(self.draw_framebuffer) {
                    let old = self.framebuffers[self.draw_framebuffer];
                    let new = if attachment == COLOR_ATTACHMENT0 {
                        Framebuffer { colour0: texture, ..old }
                    } else if attachment == COLOR_ATTACHMENT1 {
                        Framebuffer { colour1: texture, ..old }
                    } else if attachment == DEPTH_STENCIL_ATTACHMENT {
                        Framebuffer { depth_stencil: texture, ..old }
                    } else {
                        old
                    };
                    ContextState {
                        framebuffers: self.framebuffers.insert(self.draw_framebuffer, new),
                        ..self
                    }
                } else {
                    self
                }
            },
            GlCommand::ReadBuffer { source } => {
                if self.framebuffers.contains_key(self.read_framebuffer) {
                    ContextState {
                        framebuffers: self.framebuffers.insert(
                            self.read_framebuffer,
                            Framebuffer {
                                read_buffer: source,
                                ..self.framebuffers[self.read_framebuffer]
                            },
                        ),
                        ..self
                    }
                } else {
                    self
                }
            },
            GlCommand::ClearColour { draw_buffer, colour } => self.colour_written(
                draw_buffer as int,
                Fill::Solid(colour),
            ),
            GlCommand::ClearDepth { depth } => self.depth_written(Fill::Depth(depth)),
            GlCommand::Clear { mask } => {
                let coloured = if takes_colour(mask) {
                    self.colour_written(0, Fill::Unknown).colour_written(1, Fill::Unknown)
                } else {
                    self
                };
                if takes_depth(mask) {
                    coloured.depth_written(Fill::Unknown)
                } else {
                    coloured
                }
            },
            GlCommand::BlitFramebuffer { mask, .. } => {
                let coloured = if takes_colour(mask) {
                    self.colour_written(0, self.read_colour())
                } else {
                    self
                };
                if takes_depth(mask) {
                    coloured.depth_written(self.read_depth())
                } else {
                    coloured
                }
            },
            GlCommand::DeleteFramebuffer { framebuffer } => ContextState {
                framebuffers: self.framebuffers.remove(framebuffer),
                draw_framebuffer: if self.draw_framebuffer == framebuffer {
                    0
                } else {
                    self.draw_framebuffer
                },
                read_framebuffer: if self.read_framebuffer == framebuffer {
                    0
                } else {
                    self.read_framebuffer
                },
                ..self
            },
            GlCommand::Enable { capability } => if capability == DEPTH_TEST {
                ContextState { depth_test: true, ..self }
            } else {
                self
            },
            GlCommand::Disable { capability } => if capability == DEPTH_TEST {
                ContextState { depth_test: false, ..self }
            } else {
                self
            },
            GlCommand::BlendFunc { source, destination } => ContextState {
                blend: (source, destination),
                ..self
            },
            GlCommand::DrawArrays { .. } => self.drawn(),
            GlCommand::DrawElements { .. } => self.drawn(),
            GlCommand::DeleteVertexArray { array } => ContextState {
                vertex_arrays: self.vertex_arrays.remove(array),
                ..self
            },
            GlCommand::DeleteBuffer { buffer } => ContextState {
                buffers: self.buffers.remove(buffer),
                ..self
            },
            _ => self,
        }
    }

    /// The state after the commands `commands`, in order.
    pub open spec fn apply_all(self, commands: Seq<GlCommand>) -> ContextState
        decreases commands.len(),
    {
        if commands.len() == 0 {
            self
        } else {
            self.apply(commands[0]).apply_all(commands.skip(1))
        }
    }

    /// The state after the context has answered `query` with `reply`: a name
    /// other than 0 is that of a new object.
    pub open spec fn granted(self, query: GlQuery, reply: u32) -> ContextState {
        if reply == 0 {
            self
        } else {
            match query {
                GlQuery::GenFramebuffer => ContextState {
                    framebuffers: self.framebuffers.insert(reply, new_framebuffer()),
                    ..self
                },
                GlQuery::GenTexture => ContextState {
                    textures: self.textures.insert(reply, new_texture()),
                    ..self
                },
                GlQuery::GenVertexArray => ContextState {
                    vertex_arrays: self.vertex_arrays.insert(reply),
                    ..self
                },
                GlQuery::GenBuffer => ContextState {
                    buffers: self.buffers.insert(reply),
                    ..self
                },
                GlQuery::CheckFramebufferStatus => self,
            }
        }
    }
}

/// Whether a command deletes an object.
pub open spec fn is_delete(command: GlCommand) -> bool {
    command is DeleteTexture || command is DeleteFramebuffer || command is DeleteVertexArray
        || command is DeleteBuffer
}

impl ContextState {
    /// The state after the first `n` of the commands `commands`.
    pub open spec fn after(self, commands: Seq<GlCommand>, n: int) -> ContextState
        decreases n,
    {
        if n <= 0 {
            self
        } else {
            self.after(commands, n - 1).apply(commands[n - 1])
        }
    }

    /// Whether the same objects are alive in `other` as in this state.
    pub open spec fn same_objects(self, other: ContextState) -> bool {
        &&& self.framebuffers.dom() == other.framebuffers.dom()
        &&& self.textures.dom() == other.textures.dom()
        &&& self.vertex_arrays == other.vertex_arrays
        &&& self.buffers == other.buffers
    }
}

/// Running commands is running them one by one: the state after all of them
/// is the state after as many as there are, where the state after none is
/// the state itself and each further command is applied to the state after
/// those before it.
pub proof fn lemma_one_by_one(state: ContextState, commands: Seq<GlCommand>)
    ensures
        state.apply_all(commands) == state.after(commands, commands.len() as int),
        state.after(commands, 0) == state,
    decreases commands.len(),
{
    if commands.len() > 0 {
        let rest = commands.skip(1);
        let next = state.apply(commands[0]);
        lemma_one_by_one(next, rest);
        lemma_after_shift(state, commands, commands.len() as int);
    }
}

/// The state after `n` commands is the state after `n - 1` of the commands
/// behind the first, run from the state after the first.
proof fn lemma_after_shift(state: ContextState, commands: Seq<GlCommand>, n: int)
    requires
        0 < n <= commands.len(),
    ensures
        state.after(commands, n) == state.apply(commands[0]).after(commands.skip(1), n - 1),
    decreases n,
{
    let next = state.apply(commands[0]);
    let rest = commands.skip(1);
    if n > 1 {
        lemma_after_shift(state, commands, n - 1);
        assert(rest[n - 2] == commands[n - 1]);
        assert(state.after(commands, n) == state.after(commands, n - 1).apply(commands[n - 1]));
        assert(next.after(rest, n - 1) == next.after(rest, n - 2).apply(rest[n - 2]));
    } else {
        assert(state.after(commands, 0) == state);
        assert(state.after(commands, 1) == state.after(commands, 0).apply(commands[0]));
        assert(next.after(rest, 0) == next);
    }
}

/// No command brings an object to life: what is alive after a command was
/// alive before it.
pub proof fn lemma_apply_narrows(state: ContextState, command: GlCommand)
    ensures
        forall|name: u32| #[trigger]
            state.apply(command).framebuffers.contains_key(name)
                ==> state.framebuffers.contains_key(name),
        forall|name: u32| #[trigger]
            state.apply(command).textures.contains_key(name) ==> state.textures.contains_key(
                name,
            ),
        forall|name: u32| #[trigger]
            state.apply(command).vertex_arrays.contains(name) ==> state.vertex_arrays.contains(
                name,
            ),
        forall|name: u32| #[trigger]
            state.apply(command).buffers.contains(name) ==> state.buffers.contains(name),
{
    if !is_delete(command) {
        lemma_apply_keeps_objects(state, command);
        let next = state.apply(command);
        assert forall|name: u32| #[trigger]
            next.framebuffers.contains_key(name) implies state.framebuffers.contains_key(name) by {
            assert(next.framebuffers.dom().contains(name));
        }
        assert forall|name: u32| #[trigger]
            next.textures.contains_key(name) implies state.textures.contains_key(name) by {
            assert(next.textures.dom().contains(name));
        }
    }
}

/// A command that deletes nothing leaves alive what was alive, and brings
/// nothing to life.
pub proof fn lemma_apply_keeps_objects(state: ContextState, command: GlCommand)
    requires
        !is_delete(command),
    ensures
        state.same_objects(state.apply(command)),
{
    let next = state.apply(command);
    assert(state.framebuffers.dom() =~= next.framebuffers.dom());
    assert(state.textures.dom() =~= next.textures.dom()) by {
        lemma_written_keeps_textures(state);
    }
}

/// Writing to an output of the draw target leaves alive the textures that
/// were alive.
proof fn lemma_written_keeps_textures(state: ContextState)
    ensures
        forall|name: u32, fill: Fill| #[trigger]
            state.filled(name, fill).textures.dom() =~= state.textures.dom(),
        forall|slot: int, fill: Fill| #[trigger]
            state.colour_written(slot, fill).textures.dom() =~= state.textures.dom(),
        forall|fill: Fill| #[trigger]
            state.depth_written(fill).textures.dom() =~= state.textures.dom(),
        forall|name: u32, width: i32, height: i32, samples: i32| #[trigger]
            state.stored(name, width, height, samples).textures.dom() =~= state.textures.dom(),
        state.drawn().textures.dom() =~= state.textures.dom(),
        forall|mask: u32| #[trigger]
            state.apply(GlCommand::Clear { mask }).textures.dom() =~= state.textures.dom(),
        forall|
            source_width: i32,
            source_height: i32,
            target_width: u32,
            target_height: u32,
            mask: u32,
            filter: u32,
        | #[trigger]
            state.apply(
                GlCommand::BlitFramebuffer {
                    source_width,
                    source_height,
                    target_width,
                    target_height,
                    mask,
                    filter,
                },
            ).textures.dom() =~= state.textures.dom(),
{
    assert forall|slot: int, fill: Fill| #[trigger]
        state.colour_written(slot, fill).textures.dom() =~= state.textures.dom() by {}
    assert forall|fill: Fill| #[trigger]
        state.depth_written(fill).textures.dom() =~= state.textures.dom() by {}
    let first = state.colour_written(0, Fill::Unknown);
    let second = first.colour_written(1, Fill::Unknown);
    assert(first.textures.dom() =~= state.textures.dom());
    assert(second.textures.dom() =~= first.textures.dom());
    assert(second.depth_written(Fill::Unknown).textures.dom() =~= second.textures.dom());
    assert forall|mask: u32| #[trigger]
        state.apply(GlCommand::Clear { mask }).textures.dom() =~= state.textures.dom() by {
        assert(first.depth_written(Fill::Unknown).textures.dom() =~= first.textures.dom());
        assert(state.depth_written(Fill::Unknown).textures.dom() =~= state.textures.dom());
    }
    assert forall|
        source_width: i32,
        source_height: i32,
        target_width: u32,
        target_height: u32,
        mask: u32,
        filter: u32,
    | #[trigger]
        state.apply(
            GlCommand::BlitFramebuffer {
                source_width,
                source_height,
                target_width,
                target_height,
                mask,
                filter,
            },
        ).textures.dom() =~= state.textures.dom() by {
        let coloured = state.colour_written(0, state.read_colour());
        assert(coloured.textures.dom() =~= state.textures.dom());
        assert(coloured.depth_written(state.read_depth()).textures.dom()
            =~= coloured.textures.dom());
        assert(state.depth_written(state.read_depth()).textures.dom() =~= state.textures.dom());
    }
}

/// Commands that delete nothing leave alive what was alive, and bring
/// nothing to life.
pub proof fn lemma_apply_all_keeps_objects(state: ContextState, commands: Seq<GlCommand>)
    requires
        forall|i: int| 0 <= i < commands.len() ==> !is_delete(#[trigger] commands[i]),
    ensures
        state.same_objects(state.apply_all(commands)),
    decreases commands.len(),
{
    if commands.len() > 0 {
        lemma_apply_keeps_objects(state, commands[0]);
        let rest = commands.skip(1);
        assert forall|i: int| 0 <= i < rest.len() implies !is_delete(#[trigger] rest[i]) by {
            assert(rest[i] == commands[i + 1]);
        }
        lemma_apply_all_keeps_objects(state.apply(commands[0]), rest);
    }
}

/// After commands that only delete, an object is alive where it was alive
/// before and none of the commands deleted it.
pub proof fn lemma_deleted(state: ContextState, commands: Seq<GlCommand>)
    requires
        forall|i: int| 0 <= i < commands.len() ==> is_delete(#[trigger] commands[i]),
    ensures
        forall|name: u32| #[trigger]
            state.apply_all(commands).framebuffers.contains_key(name) <==> (
            state.framebuffers.contains_key(name) && !commands.contains(
                GlCommand::DeleteFramebuffer { framebuffer: name },
            )),
        forall|name: u32| #[trigger]
            state.apply_all(commands).textures.contains_key(name) <==> (
            state.textures.contains_key(name) && !commands.contains(
                GlCommand::DeleteTexture { texture: name },
            )),
        forall|name: u32| #[trigger]
            state.apply_all(commands).vertex_arrays.contains(name) <==> (
            state.vertex_arrays.contains(name) && !commands.contains(
                GlCommand::DeleteVertexArray { array: name },
            )),
        forall|name: u32| #[trigger]
            state.apply_all(commands).buffers.contains(name) <==> (state.buffers.contains(name)
                && !commands.contains(GlCommand::DeleteBuffer { buffer: name })),
    decreases commands.len(),
{
    if commands.len() > 0 {
        let first = commands[0];
        let rest = commands.skip(1);
        let next = state.apply(first);
        let end = state.apply_all(commands);
        assert(end == next.apply_all(rest));
        assert forall|i: int| 0 <= i < rest.len() implies is_delete(#[trigger] rest[i]) by {
            assert(rest[i] == commands[i + 1]);
        }
        lemma_deleted(next, rest);
        assert forall|c: GlCommand| commands.contains(c) <==> (c == first || rest.contains(c)) by {
            if commands.contains(c) {
                let i = choose|i: int| 0 <= i < commands.len() && commands[i] == c;
                if i > 0 {
                    assert(rest[i - 1] == c);
                }
            }
            if rest.contains(c) {
                let i = choose|i: int| 0 <= i < rest.len() && rest[i] == c;
                assert(commands[i + 1] == c);
            }
        }
        assert(is_delete(first));
        assert forall|name: u32| #[trigger]
            end.framebuffers.contains_key(name) <==> (state.framebuffers.contains_key(name)
                && !commands.contains(GlCommand::DeleteFramebuffer { framebuffer: name })) by {
            let c = GlCommand::DeleteFramebuffer { framebuffer: name };
            assert(commands.contains(c) <==> (c == first || rest.contains(c)));
            assert(end.framebuffers.contains_key(name) <==> (next.framebuffers.contains_key(name)
                && !rest.contains(c)));
        }
        assert forall|name: u32| #[trigger]
            end.textures.contains_key(name) <==> (state.textures.contains_key(name)
                && !commands.contains(GlCommand::DeleteTexture { texture: name })) by {
            let c = GlCommand::DeleteTexture { texture: name };
            assert(commands.contains(c) <==> (c == first || rest.contains(c)));
            assert(end.textures.contains_key(name) <==> (next.textures.contains_key(name)
                && !rest.contains(c)));
        }
        assert forall|name: u32| #[trigger]
            end.vertex_arrays.contains(name) <==> (state.vertex_arrays.contains(name)
                && !commands.contains(GlCommand::DeleteVertexArray { array: name })) by {
            let c = GlCommand::DeleteVertexArray { array: name };
            assert(commands.contains(c) <==> (c == first || rest.contains(c)));
            assert(end.vertex_arrays.contains(name) <==> (next.vertex_arrays.contains(name)
                && !rest.contains(c)));
        }
        assert forall|name: u32| #[trigger]
            end.buffers.contains(name) <==> (state.buffers.contains(name) && !commands.contains(
                GlCommand::DeleteBuffer { buffer: name },
            )) by {
            let c = GlCommand::DeleteBuffer { buffer: name };
            assert(commands.contains(c) <==> (c == first || rest.contains(c)));
            assert(end.buffers.contains(name) <==> (next.buffers.contains(name) && !rest.contains(
                c,
            )));
        }
    }
}

/// Whether two attachment points agree on the sample count, as far as both
/// have something attached.
pub open spec fn same_samples(first: Option<i32>, second: Option<i32>) -> bool {
    match (first, second) {
        (Some(a), Some(b)) => a == b,
        _ => true,
    }
}

/// Running `first` and then `second` is running the two in a row.
pub proof fn lemma_apply_all_concat(
    state: ContextState,
    first: Seq<GlCommand>,
    second: Seq<GlCommand>,
)
    ensures
        state.apply_all(first + second) == state.apply_all(first).apply_all(second),
    decreases first.len(),
{
    if first.len() == 0 {
        assert(first + second =~= second);
    } else {
        assert((first + second)[0] == first[0]);
        assert((first + second).skip(1) =~= first.skip(1) + second);
        lemma_apply_all_concat(state.apply(first[0]), first.skip(1), second);
    }
}

} // verus!
