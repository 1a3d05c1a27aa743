//! A multisampled offscreen target: one colour texture and one depth and
//! stencil texture, each holding several samples per pixel.

use vstd::prelude::*;
use crate::command::{Colour, GlCommand, GlQuery, UniformName, UniformValue, ONE_BITS, ZERO_BITS};
use crate::constants::{
    COLOR_ATTACHMENT0, DEPTH24_STENCIL8, DEPTH_STENCIL_ATTACHMENT, DRAW_FRAMEBUFFER, FRAMEBUFFER,
    NEAREST, READ_FRAMEBUFFER, RGBA, TEXTURE0, TEXTURE1, TEXTURE_2D_MULTISAMPLE,
    TEXTURE_MAG_FILTER, TEXTURE_MIN_FILTER,
};
use crate::framebuffer::simple_framebuffer::{delete_commands, delete_names, draw_to_window};
use crate::framebuffer::status::{
    check_status, depth_refused, framebuffer_refused, status_verdict, texture_refused,
    Completeness, IncompleteAttachmentPolicy,
};
use crate::plan::{extend, Construction, Outline};
use crate::render_error::{RenderError, RenderErrorView};
use crate::types::{IVec2, UVec2};

verus! {

/// A multisampled offscreen render target.
pub struct FrameBufferMultisample {
    fbo_id: u32,
    texture_id: u32,
    depth_buffer_id: u32,
    size: IVec2,
    samples: i32,
    completeness: Completeness,
}

/// What a `FrameBufferMultisample` holds.
pub struct FrameBufferMultisampleView {
    /// The name of the framebuffer object.
    pub fbo_id: u32,
    /// The name of the colour texture, attached at colour slot 0.
    pub texture_id: u32,
    /// The name of the depth and stencil texture.
    pub depth_buffer_id: u32,
    /// Width and height of both textures in pixels.
    pub size: IVec2,
    /// The number of samples that each pixel holds.
    pub samples: i32,
    /// How the framebuffer passed the completeness check.
    pub completeness: Completeness,
}

/// Black without opacity, the colour `clear_with_zeros` fills with: every
/// channel is zero.
pub open spec fn transparent_black() -> Colour {
    Colour { red: ZERO_BITS, green: ZERO_BITS, blue: ZERO_BITS, alpha: ZERO_BITS }
}

/// The commands that give one multisample texture storage of `width` by
/// `height` pixels with `samples` samples each, in the format
/// `internal_format`.
pub open spec fn sample_storage(
    texture: u32,
    samples: i32,
    internal_format: u32,
    width: i32,
    height: i32,
) -> Seq<GlCommand> {
    seq![
        GlCommand::BindTexture { target: TEXTURE_2D_MULTISAMPLE, texture },
        GlCommand::TexImage2DMultisample { samples, internal_format, width, height },
        GlCommand::TexParameteri {
            target: TEXTURE_2D_MULTISAMPLE,
            parameter: TEXTURE_MIN_FILTER,
            setting: NEAREST,
        },
        GlCommand::TexParameteri {
            target: TEXTURE_2D_MULTISAMPLE,
            parameter: TEXTURE_MAG_FILTER,
            setting: NEAREST,
        },
    ]
}

/// The commands that attach a multisample colour texture at colour slot 0
/// of `fbo` and a depth and stencil texture at the combined slot. They leave
/// the framebuffer bound.
pub open spec fn attach(fbo: u32, texture: u32, depth: u32) -> Seq<GlCommand> {
    seq![
        GlCommand::BindFramebuffer { target: FRAMEBUFFER, framebuffer: fbo },
        GlCommand::FramebufferTexture2D {
            attachment: COLOR_ATTACHMENT0,
            texture_target: TEXTURE_2D_MULTISAMPLE,
            texture,
        },
        GlCommand::FramebufferTexture2D {
            attachment: DEPTH_STENCIL_ATTACHMENT,
            texture_target: TEXTURE_2D_MULTISAMPLE,
            texture: depth,
        },
    ]
}

impl FrameBufferMultisampleView {
    /// Every name is a name that the driver gave out.
    pub open spec fn well_formed(self) -> bool {
        &&& self.fbo_id != 0
        &&& self.texture_id != 0
        &&& self.depth_buffer_id != 0
    }

    /// The framebuffers that the target owns.
    pub open spec fn framebuffers(self) -> Set<u32> {
        set![self.fbo_id]
    }

    /// The textures that the target owns.
    pub open spec fn textures(self) -> Set<u32> {
        set![self.texture_id, self.depth_buffer_id]
    }

    /// The commands that make the target the draw target.
    pub open spec fn bind_draw_target(self) -> Seq<GlCommand> {
        seq![GlCommand::BindFramebuffer { target: DRAW_FRAMEBUFFER, framebuffer: self.fbo_id }]
    }

    /// The commands that give both textures storage of the size and sample
    /// count of the target.
    pub open spec fn resize(self) -> Seq<GlCommand> {
        sample_storage(self.texture_id, self.samples, RGBA, self.size.x, self.size.y)
            + sample_storage(
            self.depth_buffer_id,
            self.samples,
            DEPTH24_STENCIL8,
            self.size.x,
            self.size.y,
        )
    }

    /// The commands that copy the target, scaled to `target_size`, into the
    /// current draw target, and then give up the read binding.
    pub open spec fn blit(self, target_size: UVec2, mask: u32, filter: u32) -> Seq<GlCommand> {
        seq![
            GlCommand::BindFramebuffer { target: READ_FRAMEBUFFER, framebuffer: self.fbo_id },
            GlCommand::BlitFramebuffer {
                source_width: self.size.x,
                source_height: self.size.y,
                target_width: target_size.x,
                target_height: target_size.y,
                mask,
                filter,
            },
            GlCommand::BindFramebuffer { target: READ_FRAMEBUFFER, framebuffer: 0 },
        ]
    }

    /// The commands that bind the colour texture to unit 0 and the depth
    /// texture to unit 1, and tell `program` so.
    pub open spec fn bind_buffer_textures(self, program: u32) -> Seq<GlCommand> {
        seq![
            GlCommand::ActiveTexture { unit: TEXTURE0 },
            GlCommand::BindTexture { target: TEXTURE_2D_MULTISAMPLE, texture: self.texture_id },
            GlCommand::ActiveTexture { unit: TEXTURE1 },
            GlCommand::BindTexture {
                target: TEXTURE_2D_MULTISAMPLE,
                texture: self.depth_buffer_id,
            },
            GlCommand::SetUniform {
                program,
                name: UniformName::FramebufferTexture,
                value: UniformValue::Int(0),
            },
            GlCommand::SetUniform {
                program,
                name: UniformName::DepthBufferTexture,
                value: UniformValue::Int(1),
            },
        ]
    }

    /// The commands that clear the buffers that `mask` selects to the
    /// context's clear values.
    pub open spec fn clear(self, mask: u32) -> Seq<GlCommand> {
        self.bind_draw_target() + seq![GlCommand::Clear { mask }]
    }

    /// The commands that clear colour to black without opacity and depth to
    /// the far plane.
    pub open spec fn clear_with_zeros(self) -> Seq<GlCommand> {
        self.bind_draw_target() + seq![
            GlCommand::ClearColour { draw_buffer: 0, colour: transparent_black() },
            GlCommand::ClearDepth { depth: ONE_BITS },
        ]
    }

    /// The commands that delete everything the target owns.
    pub open spec fn release(self) -> Seq<GlCommand> {
        delete_names(self.fbo_id, self.texture_id, self.depth_buffer_id)
    }
}

impl View for FrameBufferMultisample {
    type V = FrameBufferMultisampleView;

    closed spec fn view(&self) -> FrameBufferMultisampleView {
        FrameBufferMultisampleView {
            fbo_id: self.fbo_id,
            texture_id: self.texture_id,
            depth_buffer_id: self.depth_buffer_id,
            size: self.size,
            samples: self.samples,
            completeness: self.completeness,
        }
    }
}

impl FrameBufferMultisample {
    /// What holds of every target: its view is well formed.
    #[verifier::type_invariant]
    pub open spec fn valid(self) -> bool {
        self@.well_formed()
    }

    /// How many answers `new` takes before it stops asking.
    pub open spec fn answers_needed() -> nat {
        4
    }

    /// The step of `new` after the answers `r`, where `pending` are commands
    /// that the caller has issued since the answer before `r`.
    ///
    /// The answers are, in order: the names of the framebuffer, of the colour
    /// texture and of the depth and stencil texture, and the status of the
    /// framebuffer once set up. A name of 0 or a status that does not pass
    /// ends the construction, and everything created for it is deleted.
    pub open spec fn new_from(
        width: i32,
        height: i32,
        samples: i32,
        policy: IncompleteAttachmentPolicy,
        r: Seq<u32>,
        pending: Seq<GlCommand>,
    ) -> Outline<FrameBufferMultisampleView> {
        if r.len() == 0 {
            Outline::Ask { commands: pending, query: GlQuery::GenFramebuffer }
        } else if r[0] == 0 {
            Outline::Failed { commands: seq![], error: framebuffer_refused() }
        } else if r.len() == 1 {
            Outline::Ask { commands: seq![], query: GlQuery::GenTexture }
        } else if r[1] == 0 {
            Outline::Failed {
                commands: seq![GlCommand::DeleteFramebuffer { framebuffer: r[0] }],
                error: texture_refused(),
            }
        } else if r.len() == 2 {
            Outline::Ask { commands: seq![], query: GlQuery::GenTexture }
        } else if r[2] == 0 {
            Outline::Failed {
                commands: seq![
                    GlCommand::DeleteFramebuffer { framebuffer: r[0] },
                    GlCommand::DeleteTexture { texture: r[1] },
                ],
                error: depth_refused(),
            }
        } else if r.len() == 3 {
            Outline::Ask {
                commands: sample_storage(r[1], samples, RGBA, width, height) + sample_storage(
                    r[2],
                    samples,
                    DEPTH24_STENCIL8,
                    width,
                    height,
                ) + attach(r[0], r[1], r[2]),
                query: GlQuery::CheckFramebufferStatus,
            }
        } else {
            match status_verdict(r[3], policy) {
                Err(text) => Outline::Failed {
                    commands: delete_names(r[0], r[1], r[2]),
                    error: RenderErrorView::BufferError { error: text },
                },
                Ok(completeness) => Outline::Built {
                    commands: draw_to_window(),
                    value: FrameBufferMultisampleView {
                        fbo_id: r[0],
                        texture_id: r[1],
                        depth_buffer_id: r[2],
                        size: IVec2 { x: width, y: height },
                        samples,
                        completeness,
                    },
                },
            }
        }
    }

    /// One step of building a target of `width` by `height` pixels with
    /// `samples` samples each, after the driver's answers `replies`.
    pub fn new(
        width: i32,
        height: i32,
        samples: i32,
        policy: IncompleteAttachmentPolicy,
        replies: &Vec<u32>,
    ) -> (step: Construction<FrameBufferMultisample>)
        ensures
            step.outline() == Self::new_from(width, height, samples, policy, replies@, seq![]),
    {
        let ghost r = replies@;
        if replies.len() == 0 {
            return Construction::Ask { commands: Vec::new(), query: GlQuery::GenFramebuffer };
        }
        let fbo = replies[0];
        if fbo == 0 {
            return Construction::Failed {
                commands: Vec::new(),
                error: RenderError::buffer("Failed to create framebuffer!"),
            };
        }
        if replies.len() == 1 {
            return Construction::Ask { commands: Vec::new(), query: GlQuery::GenTexture };
        }
        let texture = replies[1];
        if texture == 0 {
            let commands = vec![GlCommand::DeleteFramebuffer { framebuffer: fbo }];
            assert(commands@ =~= seq![GlCommand::DeleteFramebuffer { framebuffer: r[0] }]);
            return Construction::Failed {
                commands,
                error: RenderError::buffer("Failed to create texture for framebuffer!"),
            };
        }
        if replies.len() == 2 {
            return Construction::Ask { commands: Vec::new(), query: GlQuery::GenTexture };
        }
        let depth = replies[2];
        if depth == 0 {
            let commands = vec![
                GlCommand::DeleteFramebuffer { framebuffer: fbo },
                GlCommand::DeleteTexture { texture },
            ];
            assert(commands@ =~= seq![
                GlCommand::DeleteFramebuffer { framebuffer: r[0] },
                GlCommand::DeleteTexture { texture: r[1] },
            ]);
            return Construction::Failed {
                commands,
                error: RenderError::buffer(
                    "Failed to create depth and stencil buffer for framebuffer!",
                ),
            };
        }
        if replies.len() == 3 {
            let mut commands = sample_storage_commands(texture, samples, RGBA, width, height);
            extend(
                &mut commands,
                sample_storage_commands(depth, samples, DEPTH24_STENCIL8, width, height),
            );
            extend(&mut commands, attach_commands(fbo, texture, depth));
            return Construction::Ask { commands, query: GlQuery::CheckFramebufferStatus };
        }
        match check_status(replies[3], policy) {
            Err(error) => Construction::Failed {
                commands: delete_commands(fbo, texture, depth),
                error,
            },
            Ok(completeness) => Construction::Built {
                commands: Self::bind_default_framebuffer(),
                value: FrameBufferMultisample {
                    fbo_id: fbo,
                    texture_id: texture,
                    depth_buffer_id: depth,
                    size: IVec2 { x: width, y: height },
                    samples,
                    completeness,
                },
            },
        }
    }

    /// The name of the framebuffer object. It is never 0.
    pub fn fbo_id(&self) -> (name: u32)
        ensures
            name == self@.fbo_id,
            name != 0,
    {
        proof {
            use_type_invariant(self);
        }
        self.fbo_id
    }

    /// The name of the colour texture. It is never 0.
    pub fn texture_id(&self) -> (name: u32)
        ensures
            name == self@.texture_id,
            name != 0,
    {
        proof {
            use_type_invariant(self);
        }
        self.texture_id
    }

    /// The name of the depth and stencil texture. It is never 0.
    pub fn depth_buffer_id(&self) -> (name: u32)
        ensures
            name == self@.depth_buffer_id,
            name != 0,
    {
        proof {
            use_type_invariant(self);
        }
        self.depth_buffer_id
    }

    /// Width and height in pixels.
    pub fn size(&self) -> (size: IVec2)
        ensures
            size == self@.size,
    {
        self.size
    }

    /// The number of samples that each pixel holds.
    pub fn samples(&self) -> (samples: i32)
        ensures
            samples == self@.samples,
    {
        self.samples
    }

    /// How the framebuffer passed the completeness check.
    pub fn completeness(&self) -> (completeness: Completeness)
        ensures
            completeness == self@.completeness,
    {
        self.completeness
    }

    /// Gives both textures storage of `width` by `height` pixels. The names
    /// and the sample count stay as they are, and nothing is created or
    /// deleted. A width or height beyond the signed 32-bit numbers is taken
    /// as the driver would take it, cut to 32 bits.
    pub fn resize(&mut self, width: u32, height: u32) -> (commands: Vec<GlCommand>)
        ensures
            final(self)@ == (FrameBufferMultisampleView {
                size: IVec2 { x: width as i32, y: height as i32 },
                ..old(self)@
            }),
            width <= i32::MAX ==> final(self)@.size.x == width,
            height <= i32::MAX ==> final(self)@.size.y == height,
            commands@ == final(self)@.resize(),
    {
        proof {
            use_type_invariant(&*self);
        }
        self.size = IVec2 {
            x: #[verifier::truncate]
            (width as i32),
            y: #[verifier::truncate]
            (height as i32),
        };
        let mut commands = sample_storage_commands(
            self.texture_id,
            self.samples,
            RGBA,
            self.size.x,
            self.size.y,
        );
        extend(
            &mut commands,
            sample_storage_commands(
                self.depth_buffer_id,
                self.samples,
                DEPTH24_STENCIL8,
                self.size.x,
                self.size.y,
            ),
        );
        commands
    }

    /// Makes the target the destination of the draws that follow.
    pub fn bind_draw_target(&self) -> (commands: Vec<GlCommand>)
        ensures
            commands@ == self@.bind_draw_target(),
    {
        vec![GlCommand::BindFramebuffer { target: DRAW_FRAMEBUFFER, framebuffer: self.fbo_id }]
    }

    /// Makes the window's own framebuffer the destination of the draws that
    /// follow.
    pub fn bind_default_framebuffer() -> (commands: Vec<GlCommand>)
        ensures
            commands@ == draw_to_window(),
    {
        vec![GlCommand::BindFramebuffer { target: DRAW_FRAMEBUFFER, framebuffer: 0 }]
    }

    /// Copies the target into the current draw target, resolving its samples
    /// and scaling from its own size to `target_size`. `mask` selects the
    /// buffers to copy and `filter` how to resample. The read binding is
    /// given up afterwards.
    pub fn blit(&self, target_size: UVec2, mask: u32, filter: u32) -> (commands: Vec<GlCommand>)
        ensures
            commands@ == self@.blit(target_size, mask, filter),
    {
        vec![
            GlCommand::BindFramebuffer { target: READ_FRAMEBUFFER, framebuffer: self.fbo_id },
            GlCommand::BlitFramebuffer {
                source_width: self.size.x,
                source_height: self.size.y,
                target_width: target_size.x,
                target_height: target_size.y,
                mask,
                filter,
            },
            GlCommand::BindFramebuffer { target: READ_FRAMEBUFFER, framebuffer: 0 },
        ]
    }

    /// Binds the colour texture to unit 0 and the depth texture to unit 1,
    /// and sets the two sampler uniforms of `program` to these units.
    pub fn bind_buffer_textures(&self, program: u32) -> (commands: Vec<GlCommand>)
        ensures
            commands@ == self@.bind_buffer_textures(program),
    {
        vec![
            GlCommand::ActiveTexture { unit: TEXTURE0 },
            GlCommand::BindTexture { target: TEXTURE_2D_MULTISAMPLE, texture: self.texture_id },
            GlCommand::ActiveTexture { unit: TEXTURE1 },
            GlCommand::BindTexture {
                target: TEXTURE_2D_MULTISAMPLE,
                texture: self.depth_buffer_id,
            },
            GlCommand::SetUniform {
                program,
                name: UniformName::FramebufferTexture,
                value: UniformValue::Int(0),
            },
            GlCommand::SetUniform {
                program,
                name: UniformName::DepthBufferTexture,
                value: UniformValue::Int(1),
            },
        ]
    }

    /// Binds the colour texture for sampling at texture unit `unit`. Units
    /// are counted on from the first one, and the count starts over where the
    /// numbers end.
    pub fn bind_colour_as_texture(&self, unit: u32) -> (commands: Vec<GlCommand>)
        ensures
            commands@ == seq![
                GlCommand::ActiveTexture { unit: TEXTURE0.wrapping_add(unit) },
                GlCommand::BindTexture {
                    target: TEXTURE_2D_MULTISAMPLE,
                    texture: self@.texture_id,
                },
            ],
    {
        vec![
            GlCommand::ActiveTexture { unit: TEXTURE0.wrapping_add(unit) },
            GlCommand::BindTexture { target: TEXTURE_2D_MULTISAMPLE, texture: self.texture_id },
        ]
    }

    /// Binds the depth and stencil texture for sampling at texture unit
    /// `unit`.
    pub fn bind_depth_as_texture(&self, unit: u32) -> (commands: Vec<GlCommand>)
        ensures
            commands@ == seq![
                GlCommand::ActiveTexture { unit: TEXTURE0.wrapping_add(unit) },
                GlCommand::BindTexture {
                    target: TEXTURE_2D_MULTISAMPLE,
                    texture: self@.depth_buffer_id,
                },
            ],
    {
        vec![
            GlCommand::ActiveTexture { unit: TEXTURE0.wrapping_add(unit) },
            GlCommand::BindTexture {
                target: TEXTURE_2D_MULTISAMPLE,
                texture: self.depth_buffer_id,
            },
        ]
    }

    /// Makes the target the draw target and clears the buffers that `mask`
    /// selects to the context's clear values.
    pub fn clear(&self, mask: u32) -> (commands: Vec<GlCommand>)
        ensures
            commands@ == self@.clear(mask),
    {
        let commands = vec![
            GlCommand::BindFramebuffer { target: DRAW_FRAMEBUFFER, framebuffer: self.fbo_id },
            GlCommand::Clear { mask },
        ];
        assert(commands@ =~= self@.clear(mask));
        commands
    }

    /// Makes the target the draw target and clears it: colour to black
    /// without opacity, depth to the far plane.
    pub fn clear_with_zeros(&self) -> (commands: Vec<GlCommand>)
        ensures
            commands@ == self@.clear_with_zeros(),
    {
        let commands = vec![
            GlCommand::BindFramebuffer { target: DRAW_FRAMEBUFFER, framebuffer: self.fbo_id },
            GlCommand::ClearColour {
                draw_buffer: 0,
                colour: Colour {
                    red: ZERO_BITS,
                    green: ZERO_BITS,
                    blue: ZERO_BITS,
                    alpha: ZERO_BITS,
                },
            },
            GlCommand::ClearDepth { depth: ONE_BITS },
        ];
        assert(commands@ =~= self@.clear_with_zeros());
        commands
    }

    /// Gives the target up: the commands delete the framebuffer and its two
    /// textures.
    pub fn destroy(self) -> (commands: Vec<GlCommand>)
        ensures
            commands@ == self@.release(),
    {
        delete_commands(self.fbo_id, self.texture_id, self.depth_buffer_id)
    }
}

/// With a driver that hands out a name whenever it is asked for one and
/// calls the framebuffer complete, construction succeeds, whatever the width,
/// the height and the sample count: the target is built from the names given,
/// at the size asked for, well formed and complete.
pub proof fn lemma_new_succeeds(
    width: i32,
    height: i32,
    samples: i32,
    policy: IncompleteAttachmentPolicy,
    r: Seq<u32>,
)
    requires
        r.len() >= 4,
        r[0] != 0,
        r[1] != 0,
        r[2] != 0,
        r[3] == crate::constants::FRAMEBUFFER_COMPLETE,
    ensures
        FrameBufferMultisample::new_from(width, height, samples, policy, r, seq![])
            matches Outline::Built { value, .. } && {
            &&& value.well_formed()
            &&& value.completeness == Completeness::Complete
            &&& value.size == (IVec2 { x: width, y: height })
            &&& value.samples == samples
            &&& value.fbo_id == r[0]
            &&& value.texture_id == r[1]
            &&& value.depth_buffer_id == r[2]
        },
{
}

/// The commands of `sample_storage`.
pub fn sample_storage_commands(
    texture: u32,
    samples: i32,
    internal_format: u32,
    width: i32,
    height: i32,
) -> (commands: Vec<GlCommand>)
    ensures
        commands@ == sample_storage(texture, samples, internal_format, width, height),
{
    vec![
        GlCommand::BindTexture { target: TEXTURE_2D_MULTISAMPLE, texture },
        GlCommand::TexImage2DMultisample { samples, internal_format, width, height },
        GlCommand::TexParameteri {
            target: TEXTURE_2D_MULTISAMPLE,
            parameter: TEXTURE_MIN_FILTER,
            setting: NEAREST,
        },
        GlCommand::TexParameteri {
            target: TEXTURE_2D_MULTISAMPLE,
            parameter: TEXTURE_MAG_FILTER,
            setting: NEAREST,
        },
    ]
}

fn attach_commands(fbo: u32, texture: u32, depth: u32) -> (commands: Vec<GlCommand>)
    ensures
        commands@ == attach(fbo, texture, depth),
{
    vec![
        GlCommand::BindFramebuffer { target: FRAMEBUFFER, framebuffer: fbo },
        GlCommand::FramebufferTexture2D {
            attachment: COLOR_ATTACHMENT0,
            texture_target: TEXTURE_2D_MULTISAMPLE,
            texture,
        },
        GlCommand::FramebufferTexture2D {
            attachment: DEPTH_STENCIL_ATTACHMENT,
            texture_target: TEXTURE_2D_MULTISAMPLE,
            texture: depth,
        },
    ]
}

} // verus!
