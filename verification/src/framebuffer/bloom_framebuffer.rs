//! The target of the scene pass and the bloom that is made from it.
//!
//! The scene is drawn into a multisampled framebuffer with two colour
//! outputs: slot 0 takes the scene, slot 1 what is bright in it. After the
//! pass the scene is resolved into a single-sample target. With bloom, the
//! bright output is resolved too, blurred back and forth between two
//! single-sample targets, and added onto the resolved scene. The result goes
//! to the window.

use core::marker::PhantomData;
use vstd::prelude::*;
use vstd::string::StringExecFns;
use crate::command::{Colour, GlCommand, GlQuery, UniformName, UniformValue, ONE_BITS, ZERO_BITS,
    MINUS_ONE_BITS};
use crate::constants::{
    COLOR_ATTACHMENT0, COLOR_ATTACHMENT1, DEPTH24_STENCIL8, DEPTH_STENCIL_ATTACHMENT, DEPTH_TEST,
    DRAW_FRAMEBUFFER, FRAMEBUFFER, ONE, ONE_MINUS_SRC_ALPHA, READ_FRAMEBUFFER, RGBA, SRC_ALPHA,
    TEXTURE0, TEXTURE1, TEXTURE_2D_MULTISAMPLE,
};
use crate::framebuffer::multisample_framebuffer::{sample_storage, sample_storage_commands};
use crate::framebuffer::simple_framebuffer::{
    draw_to_window, SimpleFramebuffer, SimpleFramebufferView,
};
use crate::framebuffer::status::{
    check_status, depth_refused, framebuffer_refused, status_verdict, texture_refused,
    Completeness, IncompleteAttachmentPolicy,
};
use crate::plan::{extend, Construction, Outline};
use crate::render_error::{RenderError, RenderErrorView};
use crate::renderable::gl_renderable::GlRenderable;
use crate::shader::shader_manager::{lookup, ShaderManager};
use crate::types::{IVec2, UVec2};
use crate::vertex_3d::Vertex3d;

verus! {

/// The multisampled scene target with its bloom chain.
pub struct BloomFramebuffer {
    fbo_id: u32,
    texture_id: u32,
    bloom_texture_id: u32,
    depth_buffer_id: u32,
    ping_pong_buffers: [SimpleFramebuffer; 2],
    out_buffer: SimpleFramebuffer,
    size: IVec2,
    samples: i32,
    renderable: GlRenderable<Vertex3d>,
    do_bloom: bool,
    bloom_levels: i32,
    completeness: Completeness,
}

/// What a `BloomFramebuffer` holds.
pub struct BloomFramebufferView {
    /// The name of the framebuffer object.
    pub fbo_id: u32,
    /// The name of the scene colour texture, attached at colour slot 0.
    pub texture_id: u32,
    /// The name of the bright colour texture, attached at colour slot 1.
    pub bloom_texture_id: u32,
    /// The name of the depth and stencil texture that both share.
    pub depth_buffer_id: u32,
    /// The two single-sample targets that the blur alternates between.
    pub ping_pong_buffers: Seq<SimpleFramebufferView>,
    /// The single-sample target that receives the resolved scene.
    pub out_buffer: SimpleFramebufferView,
    /// Width and height of the three textures in pixels.
    pub size: IVec2,
    /// The number of samples that each pixel holds.
    pub samples: i32,
    /// The quad that the blur and the composition draw.
    pub renderable: GlRenderable<Vertex3d>,
    /// Whether the post-process adds bloom.
    pub do_bloom: bool,
    /// How often the blur runs over both axes.
    pub bloom_levels: i32,
    /// How the framebuffer passed the completeness check.
    pub completeness: Completeness,
}

/// The colour that the scene output clears to: `(0.15, 0.2, 0.4, 1.0)`.
pub open spec fn background() -> Colour {
    Colour { red: 0x3E19_999A, green: 0x3E4C_CCCD, blue: 0x3ECC_CCCD, alpha: ONE_BITS }
}

/// The colour that the bright output clears to: `(0.03, 0.06, 0.12, 0.0)`,
/// dark and without opacity.
pub open spec fn darkness() -> Colour {
    Colour { red: 0x3CF5_C28F, green: 0x3D75_C28F, blue: 0x3DF5_C28F, alpha: ZERO_BITS }
}

/// The six vertices of two triangles that cover the whole clip space at
/// depth 0, with texture coordinates from `(0, 0)` at the lower left to
/// `(1, 1)`.
pub open spec fn quad_vertices() -> Seq<Vertex3d> {
    seq![
        Vertex3d { x: MINUS_ONE_BITS, y: MINUS_ONE_BITS, z: ZERO_BITS, u: ZERO_BITS, v: ZERO_BITS },
        Vertex3d { x: ONE_BITS, y: MINUS_ONE_BITS, z: ZERO_BITS, u: ONE_BITS, v: ZERO_BITS },
        Vertex3d { x: MINUS_ONE_BITS, y: ONE_BITS, z: ZERO_BITS, u: ZERO_BITS, v: ONE_BITS },
        Vertex3d { x: ONE_BITS, y: MINUS_ONE_BITS, z: ZERO_BITS, u: ONE_BITS, v: ZERO_BITS },
        Vertex3d { x: ONE_BITS, y: ONE_BITS, z: ZERO_BITS, u: ONE_BITS, v: ONE_BITS },
        Vertex3d { x: MINUS_ONE_BITS, y: ONE_BITS, z: ZERO_BITS, u: ZERO_BITS, v: ONE_BITS },
    ]
}

/// The commands that attach the scene texture at colour slot 0 of `fbo`, the
/// bright texture at colour slot 1 and the depth and stencil texture at the
/// combined slot. They leave the framebuffer bound.
pub open spec fn attach(fbo: u32, texture: u32, bloom: u32, depth: u32) -> Seq<GlCommand> {
    seq![
        GlCommand::BindFramebuffer { target: FRAMEBUFFER, framebuffer: fbo },
        GlCommand::FramebufferTexture2D {
            attachment: COLOR_ATTACHMENT0,
            texture_target: TEXTURE_2D_MULTISAMPLE,
            texture,
        },
        GlCommand::FramebufferTexture2D {
            attachment: COLOR_ATTACHMENT1,
            texture_target: TEXTURE_2D_MULTISAMPLE,
            texture: bloom,
        },
        GlCommand::FramebufferTexture2D {
            attachment: DEPTH_STENCIL_ATTACHMENT,
            texture_target: TEXTURE_2D_MULTISAMPLE,
            texture: depth,
        },
    ]
}

/// The commands that give the three multisample textures storage of `width`
/// by `height` pixels with `samples` samples each.
pub open spec fn storage(
    texture: u32,
    bloom: u32,
    depth: u32,
    samples: i32,
    width: i32,
    height: i32,
) -> Seq<GlCommand> {
    sample_storage(texture, samples, RGBA, width, height) + sample_storage(
        bloom,
        samples,
        RGBA,
        width,
        height,
    ) + sample_storage(depth, samples, DEPTH24_STENCIL8, width, height)
}

/// The commands that delete the framebuffer and its three textures.
pub open spec fn delete_names(fbo: u32, texture: u32, bloom: u32, depth: u32) -> Seq<GlCommand> {
    seq![
        GlCommand::DeleteFramebuffer { framebuffer: fbo },
        GlCommand::DeleteTexture { texture },
        GlCommand::DeleteTexture { texture: bloom },
        GlCommand::DeleteTexture { texture: depth },
    ]
}

/// The target that blur pass `i` reads: the two take turns, the first one
/// first.
pub open spec fn read_slot(i: nat) -> nat {
    i % 2
}

/// The target that blur pass `i` writes: the one it does not read.
pub open spec fn write_slot(i: nat) -> nat {
    (i + 1) % 2
}

/// The axis that blur pass `i` blurs along: 0 is horizontal, 1 vertical.
pub open spec fn blur_axis(i: nat) -> i32 {
    (i % 2) as i32
}

/// The commands that set blending back to blending by opacity and turn
/// depth testing on again.
pub open spec fn restore() -> Seq<GlCommand> {
    seq![
        GlCommand::BlendFunc { source: SRC_ALPHA, destination: ONE_MINUS_SRC_ALPHA },
        GlCommand::Enable { capability: DEPTH_TEST },
    ]
}

impl BloomFramebufferView {
    /// Every name is a name that the driver gave out, there are two targets
    /// to blur between, and every part is well formed.
    pub open spec fn well_formed(self) -> bool {
        &&& self.fbo_id != 0
        &&& self.texture_id != 0
        &&& self.bloom_texture_id != 0
        &&& self.depth_buffer_id != 0
        &&& self.ping_pong_buffers.len() == 2
        &&& self.ping_pong_buffers[0].well_formed()
        &&& self.ping_pong_buffers[1].well_formed()
        &&& self.out_buffer.well_formed()
        &&& self.renderable matches GlRenderable::Initialised { vao, vbo, vertex_count }
        &&& vao != 0
        &&& vbo != 0
        &&& vertex_count == 6
    }

    /// The framebuffers that the target owns, those of its parts included.
    pub open spec fn framebuffers(self) -> Set<u32> {
        set![self.fbo_id] + self.ping_pong_buffers[0].framebuffers()
            + self.ping_pong_buffers[1].framebuffers() + self.out_buffer.framebuffers()
    }

    /// The textures that the target owns, those of its parts included.
    pub open spec fn textures(self) -> Set<u32> {
        set![self.texture_id, self.bloom_texture_id, self.depth_buffer_id]
            + self.ping_pong_buffers[0].textures() + self.ping_pong_buffers[1].textures()
            + self.out_buffer.textures()
    }

    /// The vertex arrays that the target owns, those of its parts included.
    pub open spec fn vertex_arrays(self) -> Set<u32> {
        self.renderable.vertex_arrays() + self.ping_pong_buffers[0].vertex_arrays()
            + self.ping_pong_buffers[1].vertex_arrays() + self.out_buffer.vertex_arrays()
    }

    /// The buffers that the target owns, those of its parts included.
    pub open spec fn buffers(self) -> Set<u32> {
        self.renderable.buffers() + self.ping_pong_buffers[0].buffers()
            + self.ping_pong_buffers[1].buffers() + self.out_buffer.buffers()
    }

    /// The commands that make the target the draw target, with both colour
    /// outputs enabled.
    pub open spec fn bind_draw_target(self) -> Seq<GlCommand> {
        seq![
            GlCommand::BindFramebuffer { target: DRAW_FRAMEBUFFER, framebuffer: self.fbo_id },
            GlCommand::DrawBuffers { first: COLOR_ATTACHMENT0, second: COLOR_ATTACHMENT1 },
        ]
    }

    /// The commands that clear the target: the scene output to the
    /// background, the bright output to darkness, depth to the far plane;
    /// and then the resolved target, so that nothing of the last frame stays
    /// in it.
    pub open spec fn clear(self) -> Seq<GlCommand> {
        self.bind_draw_target() + seq![
            GlCommand::ClearColour { draw_buffer: 0, colour: background() },
            GlCommand::ClearColour { draw_buffer: 1, colour: darkness() },
            GlCommand::ClearDepth { depth: ONE_BITS },
        ] + self.out_buffer.clear()
    }

    /// The commands that give the three textures and the three single-sample
    /// targets storage of the size of the target.
    pub open spec fn resize(self) -> Seq<GlCommand> {
        storage(
            self.texture_id,
            self.bloom_texture_id,
            self.depth_buffer_id,
            self.samples,
            self.size.x,
            self.size.y,
        ) + self.ping_pong_buffers[0].resize() + self.ping_pong_buffers[1].resize()
            + self.out_buffer.resize()
    }

    /// The target with every part of it at `size`.
    pub open spec fn resized(self, size: IVec2) -> BloomFramebufferView {
        BloomFramebufferView {
            size,
            ping_pong_buffers: seq![
                SimpleFramebufferView { size, ..self.ping_pong_buffers[0] },
                SimpleFramebufferView { size, ..self.ping_pong_buffers[1] },
            ],
            out_buffer: SimpleFramebufferView { size, ..self.out_buffer },
            ..self
        }
    }

    /// The commands that resolve the colour output at `slot` into
    /// `destination`, scaled to `target_size`, and then give up the read
    /// binding.
    pub open spec fn resolve(
        self,
        slot: u32,
        destination: SimpleFramebufferView,
        target_size: UVec2,
        mask: u32,
        filter: u32,
    ) -> Seq<GlCommand> {
        seq![
            GlCommand::BindFramebuffer { target: READ_FRAMEBUFFER, framebuffer: self.fbo_id },
            GlCommand::ReadBuffer { source: slot },
        ] + destination.bind_draw_target() + seq![
            GlCommand::BlitFramebuffer {
                source_width: self.size.x,
                source_height: self.size.y,
                target_width: target_size.x,
                target_height: target_size.y,
                mask,
                filter,
            },
            GlCommand::BindFramebuffer { target: READ_FRAMEBUFFER, framebuffer: 0 },
        ]
    }

    /// The commands that bind the scene texture to unit 0 and the bright
    /// texture to unit 1, and tell `program` so.
    pub open spec fn bind_buffer_textures(self, program: u32) -> Seq<GlCommand> {
        seq![
            GlCommand::ActiveTexture { unit: TEXTURE0 },
            GlCommand::BindTexture { target: TEXTURE_2D_MULTISAMPLE, texture: self.texture_id },
            GlCommand::ActiveTexture { unit: TEXTURE1 },
            GlCommand::BindTexture {
                target: TEXTURE_2D_MULTISAMPLE,
                texture: self.bloom_texture_id,
            },
            GlCommand::SetUniform {
                program,
                name: UniformName::ColourTexture,
                value: UniformValue::Int(0),
            },
            GlCommand::SetUniform {
                program,
                name: UniformName::BloomTexture,
                value: UniformValue::Int(1),
            },
        ]
    }

    /// How many blur passes the post-process runs: one per axis for each
    /// level, and none for a level count below 1.
    pub open spec fn passes(self) -> nat {
        if self.bloom_levels > 0 {
            (2 * self.bloom_levels) as nat
        } else {
            0
        }
    }

    /// The commands that prepare the blur with the shader `program`: the
    /// size of the screen and the sample count as uniforms, the textures of
    /// the target bound, depth testing off.
    pub open spec fn blur_setup(self, program: u32, target_size: UVec2) -> Seq<GlCommand> {
        seq![
            GlCommand::SetUniform {
                program,
                name: UniformName::ScreenSize,
                value: UniformValue::Extent(target_size.x, target_size.y),
            },
            GlCommand::SetUniform {
                program,
                name: UniformName::Samples,
                value: UniformValue::Int(self.samples),
            },
        ] + self.bind_buffer_textures(program) + seq![
            GlCommand::Disable { capability: DEPTH_TEST },
        ]
    }

    /// The commands of blur pass `i`: the axis as a uniform, the target to
    /// write as draw target, the textures of the target to read bound, and
    /// the quad drawn.
    pub open spec fn blur_pass(self, program: u32, i: nat) -> Seq<GlCommand> {
        seq![
            GlCommand::SetUniform {
                program,
                name: UniformName::Direction,
                value: UniformValue::Int(blur_axis(i)),
            },
        ] + self.ping_pong_buffers[write_slot(i) as int].bind_draw_target()
            + self.ping_pong_buffers[read_slot(i) as int].bind_buffer_textures(program)
            + self.renderable.draw_commands()
    }

    /// The commands of the blur passes 0 to `count - 1`, in order.
    pub open spec fn blur_passes(self, program: u32, count: nat) -> Seq<GlCommand>
        decreases count,
    {
        if count == 0 {
            seq![]
        } else {
            self.blur_passes(program, (count - 1) as nat) + self.blur_pass(
                program,
                (count - 1) as nat,
            )
        }
    }

    /// The commands that draw the first blur target onto the resolved
    /// target with the shader `program`.
    pub open spec fn composite(self, program: u32) -> Seq<GlCommand> {
        self.ping_pong_buffers[0].bind_buffer_textures(program)
            + self.out_buffer.bind_draw_target() + self.renderable.draw_commands()
    }

    /// The commands that copy the resolved target to the window.
    pub open spec fn present(self, target_size: UVec2, mask: u32, filter: u32) -> Seq<GlCommand> {
        draw_to_window() + self.out_buffer.blit(target_size, mask, filter)
    }

    /// What `blit` does with the shaders `shaders`: the commands, and the
    /// error if a shader is missing.
    ///
    /// The scene is always resolved. Without bloom it is then presented.
    /// With bloom the bright output is resolved into the first blur target;
    /// the shader `BLOOM` blurs it in `passes()` passes; then with blending
    /// set to add, the shader `GENERIC` draws the first blur target, which
    /// took the last pass, onto the resolved scene; blending and depth
    /// testing are set back; and the result is presented. Where `BLOOM` is
    /// missing the commands end before the blur. Where `GENERIC` is missing
    /// they end after it, with blending and depth testing set back.
    pub open spec fn blit(
        self,
        target_size: UVec2,
        mask: u32,
        filter: u32,
        shaders: Map<Seq<char>, u32>,
    ) -> (Seq<GlCommand>, Option<RenderErrorView>) {
        let scene = self.resolve(COLOR_ATTACHMENT0, self.out_buffer, target_size, mask, filter);
        if !self.do_bloom {
            (scene + self.present(target_size, mask, filter), None)
        } else {
            let bright = scene + self.resolve(
                COLOR_ATTACHMENT1,
                self.ping_pong_buffers[0],
                target_size,
                mask,
                filter,
            );
            match lookup(shaders, "BLOOM"@) {
                Err(error) => (bright, Some(error)),
                Ok(bloom) => {
                    let blurred = bright + seq![GlCommand::UseProgram { program: bloom }]
                        + self.blur_setup(bloom, target_size) + self.blur_passes(
                        bloom,
                        self.passes(),
                    ) + seq![GlCommand::BlendFunc { source: ONE, destination: ONE }];
                    match lookup(shaders, "GENERIC"@) {
                        Err(error) => (blurred + restore(), Some(error)),
                        Ok(generic) => (
                            blurred + seq![GlCommand::UseProgram { program: generic }]
                                + self.composite(generic) + restore() + self.present(
                                target_size,
                                mask,
                                filter,
                            ),
                            None,
                        ),
                    }
                },
            }
        }
    }

    /// The commands that delete the framebuffer and its three textures.
    pub open spec fn delete_own(self) -> Seq<GlCommand> {
        delete_names(self.fbo_id, self.texture_id, self.bloom_texture_id, self.depth_buffer_id)
    }

    /// The commands that delete everything the target owns: its own
    /// framebuffer and textures, the two blur targets, the resolved target
    /// and the quad.
    pub open spec fn release(self) -> Seq<GlCommand> {
        self.delete_own() + self.ping_pong_buffers[0].release()
            + self.ping_pong_buffers[1].release() + self.out_buffer.release()
            + self.renderable.release()
    }
}

impl View for BloomFramebuffer {
    type V = BloomFramebufferView;

    closed spec fn view(&self) -> BloomFramebufferView {
        BloomFramebufferView {
            fbo_id: self.fbo_id,
            texture_id: self.texture_id,
            bloom_texture_id: self.bloom_texture_id,
            depth_buffer_id: self.depth_buffer_id,
            ping_pong_buffers: seq![self.ping_pong_buffers@[0]@, self.ping_pong_buffers@[1]@],
            out_buffer: self.out_buffer@,
            size: self.size,
            samples: self.samples,
            renderable: self.renderable,
            do_bloom: self.do_bloom,
            bloom_levels: self.bloom_levels,
            completeness: self.completeness,
        }
    }
}

impl BloomFramebuffer {
    /// What holds of every target: its view is well formed.
    #[verifier::type_invariant]
    pub open spec fn valid(self) -> bool {
        self@.well_formed()
    }

    /// How many answers `new` takes before it stops asking.
    pub open spec fn answers_needed() -> nat {
        25
    }

    /// The step of `new` after the answers `r`.
    ///
    /// The answers are, in order: the names of the framebuffer, of the scene
    /// texture, of the bright texture and of the depth and stencil texture;
    /// the status of the framebuffer once set up; the names of the vertex
    /// array and of the vertex buffer of the quad; and the six answers that
    /// each of the first blur target, the second blur target and the
    /// resolved target takes. A name of 0 or a status that does not pass ends
    /// the construction, and everything created for it is deleted, the
    /// latest part first.
    pub open spec fn new_from(
        width: i32,
        height: i32,
        samples: i32,
        do_bloom: bool,
        bloom_levels: i32,
        policy: IncompleteAttachmentPolicy,
        r: Seq<u32>,
    ) -> Outline<BloomFramebufferView> {
        if r.len() == 0 {
            Outline::Ask { commands: seq![], query: GlQuery::GenFramebuffer }
        } else if r[0] == 0 {
            Outline::Failed { commands: seq![], error: framebuffer_refused() }
        } else if r.len() == 1 {
            Outline::Ask { commands: seq![], query: GlQuery::GenTexture }
        } else if r[1] == 0 {
            Outline::Failed {
                commands: seq![GlCommand::DeleteFramebuffer { framebuffer: r[0] }],
                error: texture_refused(),
            }
        } else if r.len() == 2 {
            Outline::Ask { commands: seq![], query: GlQuery::GenTexture }
        } else if r[2] == 0 {
            Outline::Failed {
                commands: seq![
                    GlCommand::DeleteFramebuffer { framebuffer: r[0] },
                    GlCommand::DeleteTexture { texture: r[1] },
                ],
                error: texture_refused(),
            }
        } else if r.len() == 3 {
            Outline::Ask { commands: seq![], query: GlQuery::GenTexture }
        } else if r[3] == 0 {
            Outline::Failed {
                commands: seq![
                    GlCommand::DeleteFramebuffer { framebuffer: r[0] },
                    GlCommand::DeleteTexture { texture: r[1] },
                    GlCommand::DeleteTexture { texture: r[2] },
                ],
                error: depth_refused(),
            }
        } else if r.len() == 4 {
            Outline::Ask {
                commands: storage(r[1], r[2], r[3], samples, width, height) + attach(
                    r[0],
                    r[1],
                    r[2],
                    r[3],
                ),
                query: GlQuery::CheckFramebufferStatus,
            }
        } else {
            let own = delete_names(r[0], r[1], r[2], r[3]);
            match status_verdict(r[4], policy) {
                Err(text) => Outline::Failed {
                    commands: own,
                    error: RenderErrorView::BufferError { error: text },
                },
                Ok(completeness) => (GlRenderable::<Vertex3d>::Uninitialised {
                    _phantom: PhantomData,
                }).initialise_from(6, None, r.skip(5), draw_to_window()).and_then(
                    own,
                    |quad: GlRenderable<Vertex3d>, after_quad: Seq<GlCommand>|
                        SimpleFramebuffer::new_from(
                            width,
                            height,
                            policy,
                            r.skip(7),
                            after_quad,
                        ).and_then(
                            quad.release() + own,
                            |ping: SimpleFramebufferView, after_ping: Seq<GlCommand>|
                                SimpleFramebuffer::new_from(
                                    width,
                                    height,
                                    policy,
                                    r.skip(13),
                                    after_ping,
                                ).and_then(
                                    ping.release() + quad.release() + own,
                                    |pong: SimpleFramebufferView, after_pong: Seq<GlCommand>|
                                        SimpleFramebuffer::new_from(
                                            width,
                                            height,
                                            policy,
                                            r.skip(19),
                                            after_pong,
                                        ).and_then(
                                            pong.release() + ping.release() + quad.release()
                                                + own,
                                            |out: SimpleFramebufferView, last: Seq<GlCommand>|
                                                Outline::Built {
                                                    commands: last,
                                                    value: BloomFramebufferView {
                                                        fbo_id: r[0],
                                                        texture_id: r[1],
                                                        bloom_texture_id: r[2],
                                                        depth_buffer_id: r[3],
                                                        ping_pong_buffers: seq![ping, pong],
                                                        out_buffer: out,
                                                        size: IVec2 { x: width, y: height },
                                                        samples,
                                                        renderable: quad,
                                                        do_bloom,
                                                        bloom_levels,
                                                        completeness,
                                                    },
                                                },
                                        ),
                                ),
                        ),
                ),
            }
        }
    }

    /// The vertices of the quad, for the backend to upload where the
    /// commands of `new` ask for the vertex payload of the quad.
    pub fn quad() -> (vertices: Vec<Vertex3d>)
        ensures
            vertices@ == quad_vertices(),
    {
        vec![
            Vertex3d {
                x: MINUS_ONE_BITS,
                y: MINUS_ONE_BITS,
                z: ZERO_BITS,
                u: ZERO_BITS,
                v: ZERO_BITS,
            },
            Vertex3d { x: ONE_BITS, y: MINUS_ONE_BITS, z: ZERO_BITS, u: ONE_BITS, v: ZERO_BITS },
            Vertex3d { x: MINUS_ONE_BITS, y: ONE_BITS, z: ZERO_BITS, u: ZERO_BITS, v: ONE_BITS },
            Vertex3d { x: ONE_BITS, y: MINUS_ONE_BITS, z: ZERO_BITS, u: ONE_BITS, v: ZERO_BITS },
            Vertex3d { x: ONE_BITS, y: ONE_BITS, z: ZERO_BITS, u: ONE_BITS, v: ONE_BITS },
            Vertex3d { x: MINUS_ONE_BITS, y: ONE_BITS, z: ZERO_BITS, u: ZERO_BITS, v: ONE_BITS },
        ]
    }

    /// One step of building a target of `width` by `height` pixels with
    /// `samples` samples each, after the driver's answers `replies`.
    /// `do_bloom` says whether the post-process adds bloom and
    /// `bloom_levels` how often its blur runs over both axes.
    pub fn new(
        width: i32,
        height: i32,
        samples: i32,
        do_bloom: bool,
        bloom_levels: i32,
        policy: IncompleteAttachmentPolicy,
        replies: &Vec<u32>,
    ) -> (step: Construction<BloomFramebuffer>)
        ensures
            step.outline() == Self::new_from(
                width,
                height,
                samples,
                do_bloom,
                bloom_levels,
                policy,
                replies@,
            ),
    {
        let ghost r = replies@;
        let count = replies.len();
        if count == 0 {
            return Construction::Ask { commands: Vec::new(), query: GlQuery::GenFramebuffer };
        }
        let fbo = replies[0];
        if fbo == 0 {
            return Construction::Failed {
                commands: Vec::new(),
                error: RenderError::buffer("Failed to create framebuffer!"),
            };
        }
        if count == 1 {
            return Construction::Ask { commands: Vec::new(), query: GlQuery::GenTexture };
        }
        let texture = replies[1];
        if texture == 0 {
            let commands = vec![GlCommand::DeleteFramebuffer { framebuffer: fbo }];
            assert(commands@ =~= seq![GlCommand::DeleteFramebuffer { framebuffer: r[0] }]);
            return Construction::Failed {
                commands,
                error: RenderError::buffer("Failed to create texture for framebuffer!"),
            };
        }
        if count == 2 {
            return Construction::Ask { commands: Vec::new(), query: GlQuery::GenTexture };
        }
        let bloom = replies[2];
        if bloom == 0 {
            let commands = vec![
                GlCommand::DeleteFramebuffer { framebuffer: fbo },
                GlCommand::DeleteTexture { texture },
            ];
            assert(commands@ =~= seq![
                GlCommand::DeleteFramebuffer { framebuffer: r[0] },
                GlCommand::DeleteTexture { texture: r[1] },
            ]);
            return Construction::Failed {
                commands,
                error: RenderError::buffer("Failed to create texture for framebuffer!"),
            };
        }
        if count == 3 {
            return Construction::Ask { commands: Vec::new(), query: GlQuery::GenTexture };
        }
        let depth = replies[3];
        if depth == 0 {
            let commands = vec![
                GlCommand::DeleteFramebuffer { framebuffer: fbo },
                GlCommand::DeleteTexture { texture },
                GlCommand::DeleteTexture { texture: bloom },
            ];
            assert(commands@ =~= seq![
                GlCommand::DeleteFramebuffer { framebuffer: r[0] },
                GlCommand::DeleteTexture { texture: r[1] },
                GlCommand::DeleteTexture { texture: r[2] },
            ]);
            return Construction::Failed {
                commands,
                error: RenderError::buffer(
                    "Failed to create depth and stencil buffer for framebuffer!",
                ),
            };
        }
        if count == 4 {
            let mut commands = storage_commands(texture, bloom, depth, samples, width, height);
            extend(&mut commands, attach_commands(fbo, texture, bloom, depth));
            return Construction::Ask { commands, query: GlQuery::CheckFramebufferStatus };
        }
        let completeness = match check_status(replies[4], policy) {
            Ok(completeness) => completeness,
            Err(error) => {
                return Construction::Failed {
                    commands: delete_commands(fbo, texture, bloom, depth),
                    error,
                };
            },
        };
        let ghost own = delete_names(r[0], r[1], r[2], r[3]);
        let blank = GlRenderable::<Vertex3d>::new();
        let unbind = SimpleFramebuffer::bind_default_framebuffer();
        let quad_step = blank.initialise_at(6, None, replies, 5, unbind);
        let (after_quad, quad) = match quad_step {
            Construction::Ask { commands, query } => {
                return Construction::Ask { commands, query };
            },
            Construction::Failed { commands, error } => {
                let mut commands = commands;
                extend(&mut commands, delete_commands(fbo, texture, bloom, depth));
                return Construction::Failed { commands, error };
            },
            Construction::Built { commands, value } => (commands, value),
        };
        let ping_step = SimpleFramebuffer::new_at(width, height, policy, replies, 7, after_quad);
        let (after_ping, ping) = match ping_step {
            Construction::Ask { commands, query } => {
                return Construction::Ask { commands, query };
            },
            Construction::Failed { commands, error } => {
                let mut commands = commands;
                extend(&mut commands, quad.release_commands());
                extend(&mut commands, delete_commands(fbo, texture, bloom, depth));
                assert(commands@ =~= ping_step.outline().commands() + (quad.release() + own));
                return Construction::Failed { commands, error };
            },
            Construction::Built { commands, value } => (commands, value),
        };
        let pong_step = SimpleFramebuffer::new_at(width, height, policy, replies, 13, after_ping);
        let (after_pong, pong) = match pong_step {
            Construction::Ask { commands, query } => {
                return Construction::Ask { commands, query };
            },
            Construction::Failed { commands, error } => {
                let mut commands = commands;
                let ghost ping_view = ping@;
                extend(&mut commands, ping.destroy());
                extend(&mut commands, quad.release_commands());
                extend(&mut commands, delete_commands(fbo, texture, bloom, depth));
                assert(commands@ =~= pong_step.outline().commands() + (ping_view.release()
                    + quad.release() + own));
                return Construction::Failed { commands, error };
            },
            Construction::Built { commands, value } => (commands, value),
        };
        let out_step = SimpleFramebuffer::new_at(width, height, policy, replies, 19, after_pong);
        match out_step {
            Construction::Ask { commands, query } => Construction::Ask { commands, query },
            Construction::Failed { commands, error } => {
                let mut commands = commands;
                let ghost ping_view = ping@;
                let ghost pong_view = pong@;
                extend(&mut commands, pong.destroy());
                extend(&mut commands, ping.destroy());
                extend(&mut commands, quad.release_commands());
                extend(&mut commands, delete_commands(fbo, texture, bloom, depth));
                assert(commands@ =~= out_step.outline().commands() + (pong_view.release()
                    + ping_view.release() + quad.release() + own));
                Construction::Failed { commands, error }
            },
            Construction::Built { commands, value } => {
                proof {
                    use_type_invariant(&ping);
                    use_type_invariant(&pong);
                    use_type_invariant(&value);
                }
                let ghost ping_view = ping@;
                let ghost pong_view = pong@;
                let target = BloomFramebuffer {
                    fbo_id: fbo,
                    texture_id: texture,
                    bloom_texture_id: bloom,
                    depth_buffer_id: depth,
                    ping_pong_buffers: [ping, pong],
                    out_buffer: value,
                    size: IVec2 { x: width, y: height },
                    samples,
                    renderable: quad,
                    do_bloom,
                    bloom_levels,
                    completeness,
                };
                assert(target@.ping_pong_buffers =~= seq![ping_view, pong_view]);
                Construction::Built { commands, value: target }
            },
        }
    }

    /// The name of the framebuffer object. It is never 0.
    pub fn fbo_id(&self) -> (name: u32)
        ensures
            name == self@.fbo_id,
            name != 0,
    {
        proof {
            use_type_invariant(self);
        }
        self.fbo_id
    }

    /// The name of the scene colour texture. It is never 0.
    pub fn texture_id(&self) -> (name: u32)
        ensures
            name == self@.texture_id,
            name != 0,
    {
        proof {
            use_type_invariant(self);
        }
        self.texture_id
    }

    /// The name of the bright colour texture. It is never 0.
    pub fn bloom_texture_id(&self) -> (name: u32)
        ensures
            name == self@.bloom_texture_id,
            name != 0,
    {
        proof {
            use_type_invariant(self);
        }
        self.bloom_texture_id
    }

    /// The name of the depth and stencil texture. It is never 0.
    pub fn depth_buffer_id(&self) -> (name: u32)
        ensures
            name == self@.depth_buffer_id,
            name != 0,
    {
        proof {
            use_type_invariant(self);
        }
        self.depth_buffer_id
    }

    /// Width and height in pixels.
    pub fn size(&self) -> (size: IVec2)
        ensures
            size == self@.size,
    {
        self.size
    }

    /// The number of samples that each pixel holds.
    pub fn samples(&self) -> (samples: i32)
        ensures
            samples == self@.samples,
    {
        self.samples
    }

    /// Whether the post-process adds bloom.
    pub fn do_bloom(&self) -> (enabled: bool)
        ensures
            enabled == self@.do_bloom,
    {
        self.do_bloom
    }

    /// How often the blur runs over both axes.
    pub fn bloom_levels(&self) -> (levels: i32)
        ensures
            levels == self@.bloom_levels,
    {
        self.bloom_levels
    }

    /// How the framebuffer passed the completeness check.
    pub fn completeness(&self) -> (completeness: Completeness)
        ensures
            completeness == self@.completeness,
    {
        self.completeness
    }

    /// One of the two targets that the blur alternates between.
    pub fn ping_pong_buffer(&self, index: usize) -> (target: &SimpleFramebuffer)
        requires
            index < 2,
        ensures
            target@ == self@.ping_pong_buffers[index as int],
    {
        &self.ping_pong_buffers[index]
    }

    /// The target that receives the resolved scene.
    pub fn out_buffer(&self) -> (target: &SimpleFramebuffer)
        ensures
            target@ == self@.out_buffer,
    {
        &self.out_buffer
    }

    /// The quad that the blur and the composition draw.
    pub fn renderable(&self) -> (quad: &GlRenderable<Vertex3d>)
        ensures
            *quad == self@.renderable,
    {
        &self.renderable
    }

    /// Makes the target the destination of the draws that follow, with both
    /// colour outputs enabled.
    pub fn bind_draw_target(&self) -> (commands: Vec<GlCommand>)
        ensures
            commands@ == self@.bind_draw_target(),
    {
        vec![
            GlCommand::BindFramebuffer { target: DRAW_FRAMEBUFFER, framebuffer: self.fbo_id },
            GlCommand::DrawBuffers { first: COLOR_ATTACHMENT0, second: COLOR_ATTACHMENT1 },
        ]
    }

    /// Clears the target for a new frame: the scene output to the
    /// background colour, the bright output to darkness without opacity,
    /// depth to the far plane, and then the resolved target.
    pub fn clear(&self) -> (commands: Vec<GlCommand>)
        ensures
            commands@ == self@.clear(),
    {
        let mut commands = self.bind_draw_target();
        extend(
            &mut commands,
            vec![
                GlCommand::ClearColour {
                    draw_buffer: 0,
                    colour: Colour {
                        red: 0x3E19_999A,
                        green: 0x3E4C_CCCD,
                        blue: 0x3ECC_CCCD,
                        alpha: ONE_BITS,
                    },
                },
                GlCommand::ClearColour {
                    draw_buffer: 1,
                    colour: Colour {
                        red: 0x3CF5_C28F,
                        green: 0x3D75_C28F,
                        blue: 0x3DF5_C28F,
                        alpha: ZERO_BITS,
                    },
                },
                GlCommand::ClearDepth { depth: ONE_BITS },
            ],
        );
        extend(&mut commands, self.out_buffer.clear());
        commands
    }

    /// Gives the three textures and the three single-sample targets storage
    /// of `width` by `height` pixels. Every name stays as it is, and nothing
    /// is created or deleted. The quad is left alone. A width or height beyond
    /// the signed 32-bit numbers is taken as the driver would take it, cut to
    /// 32 bits.
    pub fn resize(&mut self, width: u32, height: u32) -> (commands: Vec<GlCommand>)
        ensures
            final(self)@ == old(self)@.resized(IVec2 { x: width as i32, y: height as i32 }),
            width <= i32::MAX ==> final(self)@.size.x == width,
            height <= i32::MAX ==> final(self)@.size.y == height,
            commands@ == final(self)@.resize(),
    {
        proof {
            use_type_invariant(&*self);
        }
        let size = IVec2 {
            x: #[verifier::truncate]
            (width as i32),
            y: #[verifier::truncate]
            (height as i32),
        };
        let mut commands = storage_commands(
            self.texture_id,
            self.bloom_texture_id,
            self.depth_buffer_id,
            self.samples,
            size.x,
            size.y,
        );
        self.ping_pong_buffers[0].set_size(width, height);
        self.ping_pong_buffers[1].set_size(width, height);
        self.out_buffer.set_size(width, height);
        self.size = size;
        extend(&mut commands, self.ping_pong_buffers[0].storage_commands());
        extend(&mut commands, self.ping_pong_buffers[1].storage_commands());
        extend(&mut commands, self.out_buffer.storage_commands());
        proof {
            assert(self@.ping_pong_buffers =~= old(self)@.resized(size).ping_pong_buffers);
        }
        commands
    }

    /// The post-process: resolves the scene, adds bloom if the target does
    /// bloom, and presents the result on the window at `target_size`.
    /// `mask` selects the buffers that the copies take and `filter` how they
    /// resample.
    ///
    /// The commands are to be run whatever the outcome. The outcome is the
    /// error of the first shader that `shader_manager` does not hold, of
    /// `BLOOM` and `GENERIC` in this order, where the target does bloom.
    pub fn blit(
        &self,
        target_size: UVec2,
        mask: u32,
        filter: u32,
        shader_manager: &ShaderManager,
    ) -> (result: (Vec<GlCommand>, Result<(), RenderError>))
        ensures
            result.0@ == self@.blit(target_size, mask, filter, shader_manager@).0,
            match result.1 {
                Ok(_) => self@.blit(target_size, mask, filter, shader_manager@).1 is None,
                Err(error) => self@.blit(target_size, mask, filter, shader_manager@).1 == Some(
                    error@,
                ),
            },
    {
        let mut commands = self.blit_colour_layer_to_out_buffer(target_size, mask, filter);
        if self.do_bloom {
            extend(&mut commands, self.blit_brightness_to_ping_pong(target_size, mask, filter));
            match self.gaussian_blur_to_outbuffer(target_size, shader_manager, &mut commands) {
                Ok(_) => {},
                Err(error) => {
                    return (commands, Err(error));
                },
            }
        }
        extend(&mut commands, SimpleFramebuffer::bind_default_framebuffer());
        extend(&mut commands, self.out_buffer.blit(target_size, mask, filter));
        (commands, Ok(()))
    }

    /// The first stage of the post-process: resolves the scene output into
    /// the resolved target.
    pub fn blit_colour_layer_to_out_buffer(
        &self,
        target_size: UVec2,
        mask: u32,
        filter: u32,
    ) -> (commands:
        Vec<GlCommand>)
        ensures
            commands@ == self@.resolve(
                COLOR_ATTACHMENT0,
                self@.out_buffer,
                target_size,
                mask,
                filter,
            ),
    {
        let mut commands = vec![
            GlCommand::BindFramebuffer { target: READ_FRAMEBUFFER, framebuffer: self.fbo_id },
            GlCommand::ReadBuffer { source: COLOR_ATTACHMENT0 },
        ];
        extend(&mut commands, self.out_buffer.bind_draw_target());
        extend(&mut commands, self.reusable_blit(target_size, mask, filter));
        commands
    }

    /// The second stage of the post-process: resolves the bright output
    /// into the first blur target.
    pub fn blit_brightness_to_ping_pong(&self, target_size: UVec2, mask: u32, filter: u32) -> (commands:
        Vec<GlCommand>)
        ensures
            commands@ == self@.resolve(
                COLOR_ATTACHMENT1,
                self@.ping_pong_buffers[0],
                target_size,
                mask,
                filter,
            ),
    {
        let mut commands = vec![
            GlCommand::BindFramebuffer { target: READ_FRAMEBUFFER, framebuffer: self.fbo_id },
            GlCommand::ReadBuffer { source: COLOR_ATTACHMENT1 },
        ];
        extend(&mut commands, self.ping_pong_buffers[0].bind_draw_target());
        extend(&mut commands, self.reusable_blit(target_size, mask, filter));
        commands
    }

    /// Copies from the read binding to the draw binding and gives up the
    /// read binding.
    pub fn reusable_blit(&self, target_size: UVec2, mask: u32, filter: u32) -> (commands: Vec<
        GlCommand,
    >)
        ensures
            commands@ == seq![
                GlCommand::BlitFramebuffer {
                    source_width: self@.size.x,
                    source_height: self@.size.y,
                    target_width: target_size.x,
                    target_height: target_size.y,
                    mask,
                    filter,
                },
                GlCommand::BindFramebuffer { target: READ_FRAMEBUFFER, framebuffer: 0 },
            ],
    {
        vec![
            GlCommand::BlitFramebuffer {
                source_width: self.size.x,
                source_height: self.size.y,
                target_width: target_size.x,
                target_height: target_size.y,
                mask,
                filter,
            },
            GlCommand::BindFramebuffer { target: READ_FRAMEBUFFER, framebuffer: 0 },
        ]
    }

    /// The third stage of the post-process: blurs the bright output between
    /// the two blur targets, pass by pass, and adds it onto the resolved
    /// scene. The commands are appended to `commands`.
    pub fn gaussian_blur_to_outbuffer(
        &self,
        target_size: UVec2,
        shader_manager: &ShaderManager,
        commands: &mut Vec<GlCommand>,
    ) -> (result: Result<(), RenderError>)
        ensures
            match lookup(shader_manager@, "BLOOM"@) {
                Err(error) => {
                    &&& result matches Err(e) && e@ == error
                    &&& final(commands)@ == old(commands)@
                },
                Ok(bloom) => {
                    let blurred = old(commands)@ + seq![GlCommand::UseProgram { program: bloom }]
                        + self@.blur_setup(bloom, target_size) + self@.blur_passes(
                        bloom,
                        self@.passes(),
                    ) + seq![GlCommand::BlendFunc { source: ONE, destination: ONE }];
                    match lookup(shader_manager@, "GENERIC"@) {
                        Err(error) => {
                            &&& result matches Err(e) && e@ == error
                            &&& final(commands)@ == blurred + restore()
                        },
                        Ok(generic) => {
                            &&& result is Ok
                            &&& final(commands)@ == blurred + seq![
                                GlCommand::UseProgram { program: generic },
                            ] + self@.composite(generic) + restore()
                        },
                    }
                },
            },
    {
        proof {
            use_type_invariant(self);
        }
        let ghost before = commands@;
        let bloom = match shader_manager.bind(String::from_str("BLOOM"), commands) {
            Ok(program) => program,
            Err(error) => {
                return Err(error);
            },
        };
        extend(
            commands,
            vec![
                GlCommand::SetUniform {
                    program: bloom,
                    name: UniformName::ScreenSize,
                    value: UniformValue::Extent(target_size.x, target_size.y),
                },
                GlCommand::SetUniform {
                    program: bloom,
                    name: UniformName::Samples,
                    value: UniformValue::Int(self.samples),
                },
            ],
        );
        extend(commands, self.bind_buffer_textures(bloom));
        commands.push(GlCommand::Disable { capability: DEPTH_TEST });
        let ghost prepared = commands@;
        assert(prepared =~= before + seq![GlCommand::UseProgram { program: bloom }]
            + self@.blur_setup(bloom, target_size));

        let passes: u64 = if self.bloom_levels > 0 {
            2 * (self.bloom_levels as u64)
        } else {
            0
        };
        let mut i: u64 = 0;
        while i < passes
            invariant
                i <= passes,
                passes == self@.passes(),
                commands@ == prepared + self@.blur_passes(bloom, i as nat),
                self@.well_formed(),
            decreases passes - i,
        {
            let read = (i % 2) as usize;
            let write = ((i + 1) % 2) as usize;
            commands.push(
                GlCommand::SetUniform {
                    program: bloom,
                    name: UniformName::Direction,
                    value: UniformValue::Int((i % 2) as i32),
                },
            );
            extend(commands, self.ping_pong_buffers[write].bind_draw_target());
            extend(commands, self.ping_pong_buffers[read].bind_buffer_textures(bloom));
            extend(commands, self.renderable.draw());
            assert(commands@ =~= prepared + self@.blur_passes(bloom, (i + 1) as nat));
            i = i + 1;
        }
        self.draw_blur_to_outbuffer(shader_manager, commands)
    }

    /// The end of the third stage: adds the first blur target onto the
    /// resolved scene, and sets blending and depth testing back. The commands
    /// are appended to `commands`.
    pub fn draw_blur_to_outbuffer(&self, shader_manager: &ShaderManager, commands: &mut Vec<GlCommand>)
        -> (result: Result<(), RenderError>)
        ensures
            match lookup(shader_manager@, "GENERIC"@) {
                Err(error) => {
                    &&& result matches Err(e) && e@ == error
                    &&& final(commands)@ == old(commands)@ + seq![
                        GlCommand::BlendFunc { source: ONE, destination: ONE },
                    ] + restore()
                },
                Ok(generic) => {
                    &&& result is Ok
                    &&& final(commands)@ == old(commands)@ + seq![
                        GlCommand::BlendFunc { source: ONE, destination: ONE },
                    ] + seq![GlCommand::UseProgram { program: generic }] + self@.composite(
                        generic,
                    ) + restore()
                },
            },
    {
        commands.push(GlCommand::BlendFunc { source: ONE, destination: ONE });
        let ghost blending = commands@;
        assert(blending =~= old(commands)@ + seq![
            GlCommand::BlendFunc { source: ONE, destination: ONE },
        ]);
        let outcome = match shader_manager.bind(String::from_str("GENERIC"), commands) {
            Ok(generic) => {
                extend(commands, self.ping_pong_buffers[0].bind_buffer_textures(generic));
                extend(commands, self.out_buffer.bind_draw_target());
                extend(commands, self.renderable.draw());
                assert(commands@ =~= blending + seq![GlCommand::UseProgram { program: generic }]
                    + self@.composite(generic));
                Ok(())
            },
            Err(error) => Err(error),
        };
        extend(
            commands,
            vec![
                GlCommand::BlendFunc { source: SRC_ALPHA, destination: ONE_MINUS_SRC_ALPHA },
                GlCommand::Enable { capability: DEPTH_TEST },
            ],
        );
        outcome
    }

    /// Binds the scene texture to unit 0 and the bright texture to unit 1,
    /// and sets the two sampler uniforms of `program` to these units.
    pub fn bind_buffer_textures(&self, program: u32) -> (commands: Vec<GlCommand>)
        ensures
            commands@ == self@.bind_buffer_textures(program),
    {
        vec![
            GlCommand::ActiveTexture { unit: TEXTURE0 },
            GlCommand::BindTexture { target: TEXTURE_2D_MULTISAMPLE, texture: self.texture_id },
            GlCommand::ActiveTexture { unit: TEXTURE1 },
            GlCommand::BindTexture {
                target: TEXTURE_2D_MULTISAMPLE,
                texture: self.bloom_texture_id,
            },
            GlCommand::SetUniform {
                program,
                name: UniformName::ColourTexture,
                value: UniformValue::Int(0),
            },
            GlCommand::SetUniform {
                program,
                name: UniformName::BloomTexture,
                value: UniformValue::Int(1),
            },
        ]
    }

    /// Gives the target up: the commands delete its framebuffer and
    /// textures, the two blur targets, the resolved target and the quad.
    pub fn destroy(self) -> (commands: Vec<GlCommand>)
        ensures
            commands@ == self@.release(),
    {
        let mut commands = delete_commands(
            self.fbo_id,
            self.texture_id,
            self.bloom_texture_id,
            self.depth_buffer_id,
        );
        extend(&mut commands, self.ping_pong_buffers[0].release_commands());
        extend(&mut commands, self.ping_pong_buffers[1].release_commands());
        extend(&mut commands, self.out_buffer.release_commands());
        extend(&mut commands, self.renderable.release_commands());
        commands
    }
}

/// Whether answer `i` of a construction is a framebuffer status; every other
/// answer is a name.
pub open spec fn is_status(i: int) -> bool {
    i == 4 || i == 10 || i == 16 || i == 22
}

/// With a driver that hands out a name whenever it is asked for one and
/// calls every framebuffer complete, construction succeeds, whatever the
/// width, the height, the sample count and the bloom settings: the target is
/// built at the size asked for, well formed and complete.
pub proof fn lemma_new_succeeds(
    width: i32,
    height: i32,
    samples: i32,
    do_bloom: bool,
    bloom_levels: i32,
    policy: IncompleteAttachmentPolicy,
    r: Seq<u32>,
)
    requires
        r.len() >= 25,
        forall|i: int|
            0 <= i < 25 ==> if is_status(i) {
                r[i] == crate::constants::FRAMEBUFFER_COMPLETE
            } else {
                r[i] != 0
            },
    ensures
        BloomFramebuffer::new_from(width, height, samples, do_bloom, bloom_levels, policy, r)
            matches Outline::Built { value, .. } && {
            &&& value.well_formed()
            &&& value.completeness == Completeness::Complete
            &&& value.size == (IVec2 { x: width, y: height })
            &&& value.samples == samples
            &&& value.do_bloom == do_bloom
            &&& value.bloom_levels == bloom_levels
            &&& value.ping_pong_buffers[0].size == value.size
            &&& value.ping_pong_buffers[1].size == value.size
            &&& value.out_buffer.size == value.size
        },
{
    assert(!is_status(0) && !is_status(1) && !is_status(2) && !is_status(3) && is_status(4));
    assert(!is_status(5) && !is_status(6));
    let quad = (GlRenderable::<Vertex3d>::Uninitialised { _phantom: PhantomData }).initialise_from(
        6,
        None,
        r.skip(5),
        draw_to_window(),
    );
    assert(quad is Built);
    let after_quad = quad->Built_commands;
    let ping = SimpleFramebuffer::new_from(width, height, policy, r.skip(7), after_quad);
    lemma_part_succeeds(width, height, policy, r, 7, after_quad);
    let after_ping = ping->Built_commands;
    let pong = SimpleFramebuffer::new_from(width, height, policy, r.skip(13), after_ping);
    lemma_part_succeeds(width, height, policy, r, 13, after_ping);
    let after_pong = pong->Built_commands;
    lemma_part_succeeds(width, height, policy, r, 19, after_pong);
}

/// The single-sample target whose answers start at `start` is built.
proof fn lemma_part_succeeds(
    width: i32,
    height: i32,
    policy: IncompleteAttachmentPolicy,
    r: Seq<u32>,
    start: int,
    pending: Seq<GlCommand>,
)
    requires
        r.len() >= 25,
        start == 7 || start == 13 || start == 19,
        forall|i: int|
            0 <= i < 25 ==> if is_status(i) {
                r[i] == crate::constants::FRAMEBUFFER_COMPLETE
            } else {
                r[i] != 0
            },
    ensures
        SimpleFramebuffer::new_from(width, height, policy, r.skip(start), pending)
            matches Outline::Built { value, .. } && {
            &&& value.well_formed()
            &&& value.size == (IVec2 { x: width, y: height })
        },
{
    let part = r.skip(start);
    assert(!is_status(start) && !is_status(start + 1) && !is_status(start + 2) && is_status(
        start + 3,
    ) && !is_status(start + 4) && !is_status(start + 5));
    assert(part[0] == r[start] && part[1] == r[start + 1] && part[2] == r[start + 2] && part[3]
        == r[start + 3] && part[4] == r[start + 4] && part[5] == r[start + 5]);
    crate::framebuffer::simple_framebuffer::lemma_new_succeeds(
        width,
        height,
        policy,
        part,
        pending,
    );
}

/// Every part of a bloom target takes its names from answers of its own:
/// the target from the first four, the first blur target from the eighth on,
/// the second from the fourteenth on and the resolved target from the
/// twentieth on. With a driver whose names are all different, the two blur
/// targets are two objects, and none of them is the resolved target.
pub proof fn lemma_parts_from_their_answers(
    width: i32,
    height: i32,
    samples: i32,
    do_bloom: bool,
    bloom_levels: i32,
    policy: IncompleteAttachmentPolicy,
    r: Seq<u32>,
)
    requires
        BloomFramebuffer::new_from(width, height, samples, do_bloom, bloom_levels, policy, r)
            is Built,
    ensures
        r.len() >= 25,
        ({
            let value = BloomFramebuffer::new_from(
                width,
                height,
                samples,
                do_bloom,
                bloom_levels,
                policy,
                r,
            )->Built_value;
            &&& value.well_formed()
            &&& value.fbo_id == r[0]
            &&& value.texture_id == r[1]
            &&& value.bloom_texture_id == r[2]
            &&& value.depth_buffer_id == r[3]
            &&& value.ping_pong_buffers[0].fbo_id == r[7]
            &&& value.ping_pong_buffers[0].texture_id == r[8]
            &&& value.ping_pong_buffers[0].depth_buffer_id == r[9]
            &&& value.ping_pong_buffers[1].fbo_id == r[13]
            &&& value.ping_pong_buffers[1].texture_id == r[14]
            &&& value.ping_pong_buffers[1].depth_buffer_id == r[15]
            &&& value.out_buffer.fbo_id == r[19]
            &&& value.out_buffer.texture_id == r[20]
            &&& value.out_buffer.depth_buffer_id == r[21]
        }),
{
    let quad = (GlRenderable::<Vertex3d>::Uninitialised { _phantom: PhantomData }).initialise_from(
        6,
        None,
        r.skip(5),
        draw_to_window(),
    );
    assert(quad is Built);
    let after_quad = quad->Built_commands;
    let ping = SimpleFramebuffer::new_from(width, height, policy, r.skip(7), after_quad);
    assert(ping is Built);
    crate::framebuffer::simple_framebuffer::lemma_new_ends(
        width,
        height,
        policy,
        r.skip(7),
        after_quad,
    );
    let after_ping = ping->Built_commands;
    let pong = SimpleFramebuffer::new_from(width, height, policy, r.skip(13), after_ping);
    assert(pong is Built);
    crate::framebuffer::simple_framebuffer::lemma_new_ends(
        width,
        height,
        policy,
        r.skip(13),
        after_ping,
    );
    let after_pong = pong->Built_commands;
    let out = SimpleFramebuffer::new_from(width, height, policy, r.skip(19), after_pong);
    assert(out is Built);
    crate::framebuffer::simple_framebuffer::lemma_new_ends(
        width,
        height,
        policy,
        r.skip(19),
        after_pong,
    );
}

/// Resizing twice to one size leaves the target as resizing once does, and
/// asks for the same commands both times.
pub proof fn lemma_resize_idempotent(target: BloomFramebufferView, size: IVec2)
    requires
        target.ping_pong_buffers.len() == 2,
    ensures
        target.resized(size).resized(size) == target.resized(size),
        target.resized(size).resized(size).resize() == target.resized(size).resize(),
{
    assert(target.resized(size).resized(size).ping_pong_buffers =~= target.resized(
        size,
    ).ping_pong_buffers);
}

/// The two blur targets take turns. Pass `i` reads the one with the parity
/// of `i` and writes the other one, so no pass reads what it writes, either
/// index is 0 or 1, and the next pass reads what this one wrote.
pub proof fn lemma_ping_pong_alternates(i: nat)
    ensures
        read_slot(i) == i % 2,
        write_slot(i) == (i + 1) % 2,
        read_slot(i) < 2,
        write_slot(i) < 2,
        read_slot(i) != write_slot(i),
        read_slot(i + 1) == write_slot(i),
        write_slot(i + 1) == read_slot(i),
        blur_axis(i) == read_slot(i),
{
}

/// In the commands of `count` blur passes, pass `i` stands at its place:
/// each pass takes eleven commands, and the eleven from position `11 * i` on
/// are those of pass `i`, which sets the axis to the parity of `i`, draws
/// into the blur target `write_slot(i)` and samples the blur target
/// `read_slot(i)`.
pub proof fn lemma_blur_pass_in_place(
    target: BloomFramebufferView,
    program: u32,
    count: nat,
    i: nat,
)
    requires
        target.well_formed(),
        i < count,
    ensures
        target.blur_passes(program, count).len() == 11 * count,
        target.blur_passes(program, count).subrange(11 * i as int, 11 * i as int + 11) == target.blur_pass(
            program,
            i,
        ),
        target.blur_pass(program, i)[0] == (GlCommand::SetUniform {
            program,
            name: UniformName::Direction,
            value: UniformValue::Int((i % 2) as i32),
        }),
        target.blur_pass(program, i)[1] == (GlCommand::BindFramebuffer {
            target: DRAW_FRAMEBUFFER,
            framebuffer: target.ping_pong_buffers[((i + 1) % 2) as int].fbo_id,
        }),
        target.blur_pass(program, i)[3] == (GlCommand::BindTexture {
            target: crate::constants::TEXTURE_2D,
            texture: target.ping_pong_buffers[(i % 2) as int].texture_id,
        }),
    decreases count,
{
    lemma_blur_passes_len(target, program, count);
    lemma_blur_passes_len(target, program, (count - 1) as nat);
    let before = target.blur_passes(program, (count - 1) as nat);
    let last = target.blur_pass(program, (count - 1) as nat);
    assert(target.blur_pass(program, i).len() == 11);
    if i == count - 1 {
        assert((before + last).subrange(11 * i as int, 11 * i as int + 11) =~= last);
    } else {
        lemma_blur_pass_in_place(target, program, (count - 1) as nat, i);
        assert((before + last).subrange(11 * i as int, 11 * i as int + 11) =~= before.subrange(
            11 * i as int,
            11 * i as int + 11,
        ));
    }
}

/// The commands of `count` blur passes are eleven times `count` commands.
pub proof fn lemma_blur_passes_len(target: BloomFramebufferView, program: u32, count: nat)
    requires
        target.well_formed(),
    ensures
        target.blur_passes(program, count).len() == 11 * count,
    decreases count,
{
    if count > 0 {
        lemma_blur_passes_len(target, program, (count - 1) as nat);
        assert(target.blur_pass(program, (count - 1) as nat).len() == 11);
    }
}

/// With bloom and no blur level there is no blur pass, and the bright
/// output is still added onto the scene, unblurred: after it is resolved into
/// the first blur target the blur is prepared, blending is set to add and
/// that target is drawn onto the resolved scene.
pub proof fn lemma_no_blur_levels(
    target: BloomFramebufferView,
    target_size: UVec2,
    mask: u32,
    filter: u32,
    shaders: Map<Seq<char>, u32>,
)
    requires
        target.do_bloom,
        target.bloom_levels <= 0,
        shaders.contains_key("BLOOM"@),
        shaders.contains_key("GENERIC"@),
    ensures
        target.passes() == 0,
        target.blur_passes(shaders["BLOOM"@], target.passes()) == Seq::<GlCommand>::empty(),
        target.blit(target_size, mask, filter, shaders).1 is None,
        target.blit(target_size, mask, filter, shaders).0 == target.resolve(
            COLOR_ATTACHMENT0,
            target.out_buffer,
            target_size,
            mask,
            filter,
        ) + target.resolve(
            COLOR_ATTACHMENT1,
            target.ping_pong_buffers[0],
            target_size,
            mask,
            filter,
        ) + seq![GlCommand::UseProgram { program: shaders["BLOOM"@] }] + target.blur_setup(
            shaders["BLOOM"@],
            target_size,
        ) + seq![GlCommand::BlendFunc { source: ONE, destination: ONE }] + seq![
            GlCommand::UseProgram { program: shaders["GENERIC"@] },
        ] + target.composite(shaders["GENERIC"@]) + restore() + target.present(
            target_size,
            mask,
            filter,
        ),
{
    let bloom = shaders["BLOOM"@];
    let prepared = target.resolve(COLOR_ATTACHMENT0, target.out_buffer, target_size, mask, filter)
        + target.resolve(
        COLOR_ATTACHMENT1,
        target.ping_pong_buffers[0],
        target_size,
        mask,
        filter,
    ) + seq![GlCommand::UseProgram { program: bloom }] + target.blur_setup(bloom, target_size);
    assert(prepared + target.blur_passes(bloom, 0) =~= prepared);
}

/// Without bloom the post-process resolves the scene and presents it, and
/// needs no shader.
pub proof fn lemma_without_bloom(
    target: BloomFramebufferView,
    target_size: UVec2,
    mask: u32,
    filter: u32,
    shaders: Map<Seq<char>, u32>,
)
    requires
        !target.do_bloom,
    ensures
        target.blit(target_size, mask, filter, shaders) == (
            target.resolve(COLOR_ATTACHMENT0, target.out_buffer, target_size, mask, filter)
                + target.present(target_size, mask, filter),
            None::<RenderErrorView>,
        ),
{
}

fn storage_commands(
    texture: u32,
    bloom: u32,
    depth: u32,
    samples: i32,
    width: i32,
    height: i32,
) -> (commands: Vec<GlCommand>)
    ensures
        commands@ == storage(texture, bloom, depth, samples, width, height),
{
    let mut commands = sample_storage_commands(texture, samples, RGBA, width, height);
    extend(&mut commands, sample_storage_commands(bloom, samples, RGBA, width, height));
    extend(&mut commands, sample_storage_commands(depth, samples, DEPTH24_STENCIL8, width, height));
    commands
}

fn attach_commands(fbo: u32, texture: u32, bloom: u32, depth: u32) -> (commands: Vec<GlCommand>)
    ensures
        commands@ == attach(fbo, texture, bloom, depth),
{
    vec![
        GlCommand::BindFramebuffer { target: FRAMEBUFFER, framebuffer: fbo },
        GlCommand::FramebufferTexture2D {
            attachment: COLOR_ATTACHMENT0,
            texture_target: TEXTURE_2D_MULTISAMPLE,
            texture,
        },
        GlCommand::FramebufferTexture2D {
            attachment: COLOR_ATTACHMENT1,
            texture_target: TEXTURE_2D_MULTISAMPLE,
            texture: bloom,
        },
        GlCommand::FramebufferTexture2D {
            attachment: DEPTH_STENCIL_ATTACHMENT,
            texture_target: TEXTURE_2D_MULTISAMPLE,
            texture: depth,
        },
    ]
}

fn delete_commands(fbo: u32, texture: u32, bloom: u32, depth: u32) -> (commands: Vec<GlCommand>)
    ensures
        commands@ == delete_names(fbo, texture, bloom, depth),
{
    vec![
        GlCommand::DeleteFramebuffer { framebuffer: fbo },
        GlCommand::DeleteTexture { texture },
        GlCommand::DeleteTexture { texture: bloom },
        GlCommand::DeleteTexture { texture: depth },
    ]
}

} // verus!
