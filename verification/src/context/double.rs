//! A graphics context that keeps books in place of drawing: it runs
//! commands on the model of the state, hands out names and reports the
//! status of framebuffers.

use std::collections::{HashMap, HashSet};
use vstd::prelude::*;
use vstd::std_specs::hash::*;
use crate::command::{GlCommand, GlQuery};
use crate::constants::{
    COLOR_ATTACHMENT0, COLOR_ATTACHMENT1, COLOR_BUFFER_BIT, DEPTH_BUFFER_BIT,
    DEPTH_STENCIL_ATTACHMENT, DEPTH_TEST, DRAW_FRAMEBUFFER, FRAMEBUFFER, FRAMEBUFFER_COMPLETE,
    FRAMEBUFFER_INCOMPLETE_ATTACHMENT, FRAMEBUFFER_INCOMPLETE_MISSING_ATTACHMENT,
    FRAMEBUFFER_INCOMPLETE_MULTISAMPLE, ONE, READ_FRAMEBUFFER, TEXTURE0, TEXTURE_2D,
    TEXTURE_2D_MULTISAMPLE,
};
use crate::context::state::{
    lemma_one_by_one, same_samples, Binding, ContextState, Fill, Framebuffer, Texture,
};
use crate::plan::Outline;
use crate::render_error::RenderErrorView;

verus! {

/// The books of the context: the state of the model, and how the context
/// answers.
pub struct Books {
    /// The state that the commands have led to.
    pub state: ContextState,
    /// The last name handed out. Names are handed out in order, from 1 on.
    pub last_name: u32,
    /// How many more objects the context agrees to create; `None` for as
    /// many as there are names.
    pub budget: Option<u32>,
    /// The status that the context reports for every framebuffer, where it
    /// is set; `None` for the status that the state gives.
    pub forced_status: Option<u32>,
}

impl Books {
    /// Every live object has a name that was handed out.
    pub open spec fn wf(self) -> bool {
        &&& forall|name: u32| #[trigger]
            self.state.framebuffers.contains_key(name) ==> 0 < name <= self.last_name
        &&& forall|name: u32| #[trigger]
            self.state.textures.contains_key(name) ==> 0 < name <= self.last_name
        &&& forall|name: u32| #[trigger]
            self.state.vertex_arrays.contains(name) ==> 0 < name <= self.last_name
        &&& forall|name: u32| #[trigger]
            self.state.buffers.contains(name) ==> 0 < name <= self.last_name
    }

    /// Whether the context can create one more object.
    pub open spec fn can_create(self) -> bool {
        self.budget != Some(0u32) && self.last_name < u32::MAX
    }

    /// The answer to `query`: for an object the next name, or 0 where the
    /// context cannot create one more; for the status the forced one, or
    /// else that of the state.
    pub open spec fn reply(self, query: GlQuery) -> u32 {
        match query {
            GlQuery::CheckFramebufferStatus => match self.forced_status {
                Some(status) => status,
                None => self.state.status(),
            },
            _ => if self.can_create() {
                (self.last_name + 1) as u32
            } else {
                0
            },
        }
    }

    /// The books after the context has answered `query`.
    pub open spec fn answered(self, query: GlQuery) -> Books {
        if query is CheckFramebufferStatus || !self.can_create() {
            self
        } else {
            Books {
                state: self.state.granted(query, self.reply(query)),
                last_name: self.reply(query),
                budget: match self.budget {
                    Some(left) => Some((left - 1) as u32),
                    None => None,
                },
                ..self
            }
        }
    }

    /// The books after the commands `commands`.
    pub open spec fn ran(self, commands: Seq<GlCommand>) -> Books {
        Books { state: self.state.apply_all(commands), ..self }
    }

    /// What comes of a construction that is driven on these books: the
    /// books at the end, and what was built or the error. `plan` is the
    /// constructor as a function of the answers, `replies` the answers so
    /// far. Each step's commands are run; where the step asks, the answer of
    /// the context is appended and the constructor called again. Nothing
    /// comes of a construction that still asks after `limit` answers.
    pub open spec fn driven<V>(
        self,
        plan: spec_fn(Seq<u32>) -> Outline<V>,
        replies: Seq<u32>,
        limit: nat,
    ) -> (Books, Option<Result<V, RenderErrorView>>)
        decreases limit - replies.len(),
    {
        match plan(replies) {
            Outline::Built { commands, value } => (self.ran(commands), Some(Ok(value))),
            Outline::Failed { commands, error } => (self.ran(commands), Some(Err(error))),
            Outline::Ask { commands, query } => if replies.len() >= limit {
                (self, None)
            } else {
                let asked = self.ran(commands);
                asked.answered(query).driven(plan, replies.push(asked.reply(query)), limit)
            },
        }
    }
}

/// A graphics context that keeps books.
pub struct GraphicsContext {
    framebuffers: HashMap<u32, Framebuffer>,
    textures: HashMap<u32, Texture>,
    vertex_arrays: HashSet<u32>,
    buffers: HashSet<u32>,
    draw_framebuffer: u32,
    read_framebuffer: u32,
    active_unit: u32,
    bindings: HashMap<u32, Binding>,
    window: Fill,
    depth_test: bool,
    blend_source: u32,
    blend_destination: u32,
    last_name: u32,
    budget: Option<u32>,
    forced_status: Option<u32>,
}

impl View for GraphicsContext {
    type V = Books;

    closed spec fn view(&self) -> Books {
        Books {
            state: ContextState {
                framebuffers: self.framebuffers@,
                textures: self.textures@,
                vertex_arrays: self.vertex_arrays@,
                buffers: self.buffers@,
                draw_framebuffer: self.draw_framebuffer,
                read_framebuffer: self.read_framebuffer,
                active_unit: self.active_unit,
                bindings: self.bindings@,
                window: self.window,
                depth_test: self.depth_test,
                blend: (self.blend_source, self.blend_destination),
            },
            last_name: self.last_name,
            budget: self.budget,
            forced_status: self.forced_status,
        }
    }
}

impl GraphicsContext {
    /// A context in which nothing was created yet, that creates as many
    /// objects as there are names and reports the status that its state
    /// gives.
    pub fn new() -> (context: GraphicsContext)
        ensures
            context@ == (Books {
                state: ContextState::fresh(),
                last_name: 0,
                budget: None,
                forced_status: None,
            }),
            context@.wf(),
    {
        broadcast use group_hash_axioms;

        GraphicsContext {
            framebuffers: HashMap::new(),
            textures: HashMap::new(),
            vertex_arrays: HashSet::new(),
            buffers: HashSet::new(),
            draw_framebuffer: 0,
            read_framebuffer: 0,
            active_unit: TEXTURE0,
            bindings: HashMap::new(),
            window: Fill::Unknown,
            depth_test: false,
            blend_source: ONE,
            blend_destination: 0,
            last_name: 0,
            budget: None,
            forced_status: None,
        }
    }

    /// Limits the objects that the context still creates to `budget`, or
    /// lifts the limit.
    pub fn set_budget(&mut self, budget: Option<u32>)
        ensures
            final(self)@ == (Books { budget, ..old(self)@ }),
    {
        self.budget = budget;
    }

    /// Makes the context report `status` for every framebuffer, or the
    /// status that its state gives again.
    pub fn force_status(&mut self, status: Option<u32>)
        ensures
            final(self)@ == (Books { forced_status: status, ..old(self)@ }),
    {
        self.forced_status = status;
    }

    /// Whether a framebuffer object of this name is alive.
    pub fn is_framebuffer(&self, name: u32) -> (alive: bool)
        ensures
            alive == self@.state.framebuffers.contains_key(name),
    {
        broadcast use group_hash_axioms;

        self.framebuffers.get(&name).is_some()
    }

    /// Whether a texture of this name is alive.
    pub fn is_texture(&self, name: u32) -> (alive: bool)
        ensures
            alive == self@.state.textures.contains_key(name),
    {
        broadcast use group_hash_axioms;

        self.textures.get(&name).is_some()
    }

    /// Whether a vertex array of this name is alive.
    pub fn is_vertex_array(&self, name: u32) -> (alive: bool)
        ensures
            alive == self@.state.vertex_arrays.contains(name),
    {
        broadcast use group_hash_axioms;

        self.vertex_arrays.contains(&name)
    }

    /// Whether a buffer of this name is alive.
    pub fn is_buffer(&self, name: u32) -> (alive: bool)
        ensures
            alive == self@.state.buffers.contains(name),
    {
        broadcast use group_hash_axioms;

        self.buffers.contains(&name)
    }

    /// How many objects of each kind are alive: framebuffers, textures,
    /// vertex arrays, buffers.
    pub fn live_objects(&self) -> (count: (usize, usize, usize, usize))
        ensures
            count.0 == self@.state.framebuffers.dom().len(),
            count.1 == self@.state.textures.dom().len(),
            count.2 == self@.state.vertex_arrays.len(),
            count.3 == self@.state.buffers.len(),
    {
        broadcast use group_hash_axioms;

        (
            self.framebuffers.len(),
            self.textures.len(),
            self.vertex_arrays.len(),
            self.buffers.len(),
        )
    }

    /// The texture of this name, if it is alive.
    pub fn texture(&self, name: u32) -> (texture: Option<Texture>)
        ensures
            match texture {
                Some(t) => self@.state.textures.contains_key(name) && self@.state.textures[name]
                    == t,
                None => !self@.state.textures.contains_key(name),
            },
    {
        broadcast use group_hash_axioms;

        match self.textures.get(&name) {
            Some(texture) => Some(*texture),
            None => None,
        }
    }

    /// The framebuffer object of this name, if it is alive.
    pub fn framebuffer(&self, name: u32) -> (framebuffer: Option<Framebuffer>)
        ensures
            match framebuffer {
                Some(f) => self@.state.framebuffers.contains_key(name)
                    && self@.state.framebuffers[name] == f,
                None => !self@.state.framebuffers.contains_key(name),
            },
    {
        broadcast use group_hash_axioms;

        match self.framebuffers.get(&name) {
            Some(framebuffer) => Some(*framebuffer),
            None => None,
        }
    }

    /// What is known of the contents of the texture of this name.
    pub fn fill_of(&self, name: u32) -> (fill: Fill)
        ensures
            fill == self@.state.fill_of(name),
    {
        broadcast use group_hash_axioms;

        match self.textures.get(&name) {
            Some(texture) => texture.fill,
            None => Fill::Unknown,
        }
    }

    /// What is known of the contents of the window.
    pub fn window(&self) -> (fill: Fill)
        ensures
            fill == self@.state.window,
    {
        self.window
    }

    /// The framebuffer that draws go to; 0 is the window.
    pub fn draw_framebuffer(&self) -> (name: u32)
        ensures
            name == self@.state.draw_framebuffer,
    {
        self.draw_framebuffer
    }

    /// The framebuffer that reads come from; 0 is the window.
    pub fn read_framebuffer(&self) -> (name: u32)
        ensures
            name == self@.state.read_framebuffer,
    {
        self.read_framebuffer
    }

    /// Whether depth testing is on.
    pub fn depth_test(&self) -> (on: bool)
        ensures
            on == self@.state.depth_test,
    {
        self.depth_test
    }

    /// The source and the destination factor of blending.
    pub fn blend(&self) -> (factors: (u32, u32))
        ensures
            factors == self@.state.blend,
    {
        (self.blend_source, self.blend_destination)
    }

    /// The textures bound at the active unit.
    fn binding(&self) -> (binding: Binding)
        ensures
            binding == self@.state.binding(),
    {
        broadcast use group_hash_axioms;

        match self.bindings.get(&self.active_unit) {
            Some(binding) => *binding,
            None => Binding { flat: 0, multisample: 0 },
        }
    }

    /// Whether the texture `name` can back an attachment.
    fn usable(&self, name: u32) -> (usable: bool)
        ensures
            usable == self@.state.usable(name),
    {
        broadcast use group_hash_axioms;

        match self.textures.get(&name) {
            Some(texture) => texture.width > 0 && texture.height > 0 && texture.samples >= 0,
            None => false,
        }
    }

    /// The samples of what hangs at an attachment point.
    fn samples_at(&self, name: u32) -> (samples: Option<i32>)
        ensures
            samples == self@.state.samples_at(name),
    {
        broadcast use group_hash_axioms;

        if name == 0 {
            return None;
        }
        match self.textures.get(&name) {
            Some(texture) => Some(texture.samples),
            None => None,
        }
    }

    /// The status of the framebuffer that draws go to, as the state gives
    /// it.
    pub fn status(&self) -> (status: u32)
        ensures
            status == self@.state.status(),
    {
        broadcast use group_hash_axioms;

        if self.draw_framebuffer == 0 {
            return FRAMEBUFFER_COMPLETE;
        }
        let target = match self.framebuffers.get(&self.draw_framebuffer) {
            Some(target) => *target,
            None => {
                return FRAMEBUFFER_INCOMPLETE_MISSING_ATTACHMENT;
            },
        };
        if target.colour0 == 0 && target.colour1 == 0 && target.depth_stencil == 0 {
            return FRAMEBUFFER_INCOMPLETE_MISSING_ATTACHMENT;
        }
        if (target.colour0 != 0 && !self.usable(target.colour0)) || (target.colour1 != 0
            && !self.usable(target.colour1)) || (target.depth_stencil != 0 && !self.usable(
            target.depth_stencil,
        )) {
            return FRAMEBUFFER_INCOMPLETE_ATTACHMENT;
        }
        let first = self.samples_at(target.colour0);
        let second = self.samples_at(target.colour1);
        let third = self.samples_at(target.depth_stencil);
        if !agree(first, second) || !agree(first, third) || !agree(second, third) {
            return FRAMEBUFFER_INCOMPLETE_MULTISAMPLE;
        }
        FRAMEBUFFER_COMPLETE
    }

    /// Answers `query`, and keeps books of the object that it creates for
    /// the answer.
    pub fn answer(&mut self, query: GlQuery) -> (reply: u32)
        requires
            old(self)@.wf(),
        ensures
            reply == old(self)@.reply(query),
            final(self)@ == old(self)@.answered(query),
            final(self)@.wf(),
    {
        broadcast use group_hash_axioms;

        match query {
            GlQuery::CheckFramebufferStatus => {
                return match self.forced_status {
                    Some(status) => status,
                    None => self.status(),
                };
            },
            _ => {},
        }
        let out_of_budget = match self.budget {
            Some(left) => left == 0,
            None => false,
        };
        if out_of_budget || self.last_name == u32::MAX {
            return 0;
        }
        let name = self.last_name + 1;
        self.last_name = name;
        self.budget = match self.budget {
            Some(left) => Some(left - 1),
            None => None,
        };
        match query {
            GlQuery::GenFramebuffer => {
                self.framebuffers.insert(
                    name,
                    Framebuffer {
                        colour0: 0,
                        colour1: 0,
                        depth_stencil: 0,
                        read_buffer: COLOR_ATTACHMENT0,
                    },
                );
            },
            GlQuery::GenTexture => {
                self.textures.insert(
                    name,
                    Texture { width: 0, height: 0, samples: 0, fill: Fill::Unknown },
                );
            },
            GlQuery::GenVertexArray => {
                self.vertex_arrays.insert(name);
            },
            GlQuery::GenBuffer => {
                self.buffers.insert(name);
            },
            GlQuery::CheckFramebufferStatus => {},
        }
        name
    }

    /// Puts `fill` into the texture `name`, where it is alive.
    fn fill(&mut self, name: u32, fill: Fill)
        ensures
            final(self)@ == (Books { state: old(self)@.state.filled(name, fill), ..old(self)@ }),
    {
        broadcast use group_hash_axioms;

        let found = match self.textures.get(&name) {
            Some(texture) => Some(*texture),
            None => None,
        };
        match found {
            Some(texture) => {
                self.textures.insert(
                    name,
                    Texture {
                        width: texture.width,
                        height: texture.height,
                        samples: texture.samples,
                        fill,
                    },
                );
            },
            None => {},
        }
    }

    /// Gives the texture `name` storage, where it is alive.
    fn store(&mut self, name: u32, width: i32, height: i32, samples: i32)
        ensures
            final(self)@ == (Books {
                state: old(self)@.state.stored(name, width, height, samples),
                ..old(self)@
            }),
    {
        broadcast use group_hash_axioms;

        if self.textures.get(&name).is_some() {
            self.textures.insert(name, Texture { width, height, samples, fill: Fill::Unknown });
        }
    }

    /// Puts `fill` into colour output `slot` of the draw target.
    fn write_colour(&mut self, slot: i32, fill: Fill)
        ensures
            final(self)@ == (Books {
                state: old(self)@.state.colour_written(slot as int, fill),
                ..old(self)@
            }),
    {
        broadcast use group_hash_axioms;

        if self.draw_framebuffer == 0 {
            if slot == 0 {
                self.window = fill;
            }
            return ;
        }
        let found = match self.framebuffers.get(&self.draw_framebuffer) {
            Some(target) => Some(*target),
            None => None,
        };
        match found {
            Some(target) => {
                if slot == 0 {
                    self.fill(target.colour0, fill);
                } else if slot == 1 {
                    self.fill(target.colour1, fill);
                }
            },
            None => {},
        }
    }

    /// Puts `fill` into the depth attachment of the draw target.
    fn write_depth(&mut self, fill: Fill)
        ensures
            final(self)@ == (Books {
                state: old(self)@.state.depth_written(fill),
                ..old(self)@
            }),
    {
        broadcast use group_hash_axioms;

        let found = match self.framebuffers.get(&self.draw_framebuffer) {
            Some(target) => Some(*target),
            None => None,
        };
        match found {
            Some(target) => {
                self.fill(target.depth_stencil, fill);
            },
            None => {},
        }
    }

    /// What a read of colour takes.
    fn read_colour(&self) -> (fill: Fill)
        ensures
            fill == self@.state.read_colour(),
    {
        broadcast use group_hash_axioms;

        if self.read_framebuffer == 0 {
            return self.window;
        }
        match self.framebuffers.get(&self.read_framebuffer) {
            Some(source) => {
                if source.read_buffer == COLOR_ATTACHMENT1 {
                    self.fill_of(source.colour1)
                } else {
                    self.fill_of(source.colour0)
                }
            },
            None => Fill::Unknown,
        }
    }

    /// What a read of depth takes.
    fn read_depth(&self) -> (fill: Fill)
        ensures
            fill == self@.state.read_depth(),
    {
        broadcast use group_hash_axioms;

        match self.framebuffers.get(&self.read_framebuffer) {
            Some(source) => self.fill_of(source.depth_stencil),
            None => Fill::Unknown,
        }
    }

    /// Changes the framebuffer object that draws go to, where it is alive.
    fn attach(&mut self, attachment: u32, texture: u32)
        ensures
            final(self)@ == (Books {
                state: old(self)@.state.apply(
                    GlCommand::FramebufferTexture2D {
                        attachment,
                        texture_target: TEXTURE_2D,
                        texture,
                    },
                ),
                ..old(self)@
            }),
    {
        broadcast use group_hash_axioms;

        let found = match self.framebuffers.get(&self.draw_framebuffer) {
            Some(target) => Some(*target),
            None => None,
        };
        match found {
            Some(old) => {
                let new = if attachment == COLOR_ATTACHMENT0 {
                    Framebuffer {
                        colour0: texture,
                        colour1: old.colour1,
                        depth_stencil: old.depth_stencil,
                        read_buffer: old.read_buffer,
                    }
                } else if attachment == COLOR_ATTACHMENT1 {
                    Framebuffer {
                        colour0: old.colour0,
                        colour1: texture,
                        depth_stencil: old.depth_stencil,
                        read_buffer: old.read_buffer,
                    }
                } else if attachment == DEPTH_STENCIL_ATTACHMENT {
                    Framebuffer {
                        colour0: old.colour0,
                        colour1: old.colour1,
                        depth_stencil: texture,
                        read_buffer: old.read_buffer,
                    }
                } else {
                    old
                };
                self.framebuffers.insert(self.draw_framebuffer, new);
            },
            None => {},
        }
    }

    /// Runs one command on the books.
    pub fn execute(&mut self, command: GlCommand)
        requires
            old(self)@.wf(),
        ensures
            final(self)@ == (Books { state: old(self)@.state.apply(command), ..old(self)@ }),
            final(self)@.wf(),
    {
        broadcast use group_hash_axioms;

        proof {
            crate::context::state::lemma_apply_narrows(old(self)@.state, command);
        }
        match command {
            GlCommand::BindTexture { target, texture } => {
                let bound = self.binding();
                if target == TEXTURE_2D {
                    self.bindings.insert(
                        self.active_unit,
                        Binding { flat: texture, multisample: bound.multisample },
                    );
                } else if target == TEXTURE_2D_MULTISAMPLE {
                    self.bindings.insert(
                        self.active_unit,
                        Binding { flat: bound.flat, multisample: texture },
                    );
                }
            },
            GlCommand::TexImage2D { width, height, .. } => {
                let bound = self.binding();
                self.store(bound.flat, width, height, 0);
            },
            GlCommand::TexImage2DData { width, height, .. } => {
                let bound = self.binding();
                self.store(bound.flat, width, height, 0);
            },
            GlCommand::TexImage2DMultisample { samples, width, height, .. } => {
                if samples >= 1 {
                    let bound = self.binding();
                    self.store(bound.multisample, width, height, samples);
                }
            },
            GlCommand::ActiveTexture { unit } => {
                self.active_unit = unit;
            },
            GlCommand::DeleteTexture { texture } => {
                self.textures.remove(&texture);
            },
            GlCommand::BindFramebuffer { target, framebuffer } => {
                if target == DRAW_FRAMEBUFFER {
                    self.draw_framebuffer = framebuffer;
                } else if target == READ_FRAMEBUFFER {
                    self.read_framebuffer = framebuffer;
                } else if target == FRAMEBUFFER {
                    self.draw_framebuffer = framebuffer;
                    self.read_framebuffer = framebuffer;
                }
            },
            GlCommand::FramebufferTexture2D { attachment, texture, .. } => {
                self.attach(attachment, texture);
            },
            GlCommand::ReadBuffer { source } => {
                let found = match self.framebuffers.get(&self.read_framebuffer) {
                    Some(target) => Some(*target),
                    None => None,
                };
                match found {
                    Some(old) => {
                        self.framebuffers.insert(
                            self.read_framebuffer,
                            Framebuffer {
                                colour0: old.colour0,
                                colour1: old.colour1,
                                depth_stencil: old.depth_stencil,
                                read_buffer: source,
                            },
                        );
                    },
                    None => {},
                }
            },
            GlCommand::ClearColour { draw_buffer, colour } => {
                self.write_colour(draw_buffer, Fill::Solid(colour));
            },
            GlCommand::ClearDepth { depth } => {
                self.write_depth(Fill::Depth(depth));
            },
            GlCommand::Clear { mask } => {
                if mask & COLOR_BUFFER_BIT != 0 {
                    self.write_colour(0, Fill::Unknown);
                    self.write_colour(1, Fill::Unknown);
                }
                if mask & DEPTH_BUFFER_BIT != 0 {
                    self.write_depth(Fill::Unknown);
                }
            },
            GlCommand::BlitFramebuffer { mask, .. } => {
                let colour = self.read_colour();
                let depth = self.read_depth();
                if mask & COLOR_BUFFER_BIT != 0 {
                    self.write_colour(0, colour);
                }
                if mask & DEPTH_BUFFER_BIT != 0 {
                    self.write_depth(depth);
                }
            },
            GlCommand::DeleteFramebuffer { framebuffer } => {
                self.framebuffers.remove(&framebuffer);
                if self.draw_framebuffer == framebuffer {
                    self.draw_framebuffer = 0;
                }
                if self.read_framebuffer == framebuffer {
                    self.read_framebuffer = 0;
                }
            },
            GlCommand::Enable { capability } => {
                if capability == DEPTH_TEST {
                    self.depth_test = true;
                }
            },
            GlCommand::Disable { capability } => {
                if capability == DEPTH_TEST {
                    self.depth_test = false;
                }
            },
            GlCommand::BlendFunc { source, destination } => {
                self.blend_source = source;
                self.blend_destination = destination;
            },
            GlCommand::DrawArrays { .. } => {
                self.write_colour(0, Fill::Unknown);
                self.write_colour(1, Fill::Unknown);
                self.write_depth(Fill::Unknown);
            },
            GlCommand::DrawElements { .. } => {
                self.write_colour(0, Fill::Unknown);
                self.write_colour(1, Fill::Unknown);
                self.write_depth(Fill::Unknown);
            },
            GlCommand::DeleteVertexArray { array } => {
                self.vertex_arrays.remove(&array);
            },
            GlCommand::DeleteBuffer { buffer } => {
                self.buffers.remove(&buffer);
            },
            _ => {},
        }
    }

    /// Runs the commands on the books, in order.
    pub fn run(&mut self, commands: &Vec<GlCommand>)
        requires
            old(self)@.wf(),
        ensures
            final(self)@ == old(self)@.ran(commands@),
            final(self)@.wf(),
    {
        proof {
            lemma_one_by_one(old(self)@.state, commands@);
        }
        let mut i: usize = 0;
        while i < commands.len()
            invariant
                i <= commands@.len(),
                self@.wf(),
                self@ == (Books {
                    state: old(self)@.state.after(commands@, i as int),
                    ..old(self)@
                }),
            decreases commands@.len() - i,
        {
            assert(old(self)@.state.after(commands@, i + 1) == old(self)@.state.after(
                commands@,
                i as int,
            ).apply(commands@[i as int]));
            self.execute(commands[i]);
            i = i + 1;
        }
    }
}

/// Whether two attachment points agree on the sample count, as far as both
/// have something attached.
fn agree(first: Option<i32>, second: Option<i32>) -> (agree: bool)
    ensures
        agree == same_samples(first, second),
{
    match (first, second) {
        (Some(a), Some(b)) => a == b,
        _ => true,
    }
}

} // verus!
