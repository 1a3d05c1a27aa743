//! Render targets built on the book-keeping context.

use vstd::prelude::*;
use crate::context::double::{Books, GraphicsContext};
use crate::framebuffer::bloom_framebuffer::{BloomFramebuffer, BloomFramebufferView};
use crate::framebuffer::multisample_framebuffer::{
    FrameBufferMultisample, FrameBufferMultisampleView,
};
use crate::framebuffer::simple_framebuffer::{
    lemma_new_ends, SimpleFramebuffer, SimpleFramebufferView,
};
use crate::framebuffer::bloom_laws::bloom_set_up;
use crate::framebuffer::laws::simple_set_up;
use crate::framebuffer::status::{Completeness, IncompleteAttachmentPolicy};
use crate::context::bloom_laws::{bloom_built, lemma_bloom_created};
use crate::context::laws::{has_room, lemma_multisample_created, lemma_simple_created};
use crate::types::IVec2;
use crate::plan::{Construction, Outline};
use crate::render_error::{RenderError, RenderErrorView};

verus! {

/// A result with what was built and the error by their views.
pub open spec fn outcome<T: View>(result: Result<T, RenderError>) -> Result<
    T::V,
    RenderErrorView,
> {
    match result {
        Ok(value) => Ok(value@),
        Err(error) => Err(error@),
    }
}

/// The constructor of a single-sample target as a function of the answers.
pub open spec fn simple_plan(
    width: i32,
    height: i32,
    policy: IncompleteAttachmentPolicy,
) -> spec_fn(Seq<u32>) -> Outline<SimpleFramebufferView> {
    |r: Seq<u32>| SimpleFramebuffer::new_from(width, height, policy, r, seq![])
}

/// The constructor of a multisampled target as a function of the answers.
pub open spec fn multisample_plan(
    width: i32,
    height: i32,
    samples: i32,
    policy: IncompleteAttachmentPolicy,
) -> spec_fn(Seq<u32>) -> Outline<FrameBufferMultisampleView> {
    |r: Seq<u32>| FrameBufferMultisample::new_from(width, height, samples, policy, r, seq![])
}

/// The constructor of a bloom target as a function of the answers.
pub open spec fn bloom_plan(
    width: i32,
    height: i32,
    samples: i32,
    do_bloom: bool,
    bloom_levels: i32,
    policy: IncompleteAttachmentPolicy,
) -> spec_fn(Seq<u32>) -> Outline<BloomFramebufferView> {
    |r: Seq<u32>|
        BloomFramebuffer::new_from(width, height, samples, do_bloom, bloom_levels, policy, r)
}

/// Whether a context is sure to build a target of this size and sample
/// count that takes `objects` objects: the size is positive, there is at
/// least one sample, the context reports the status that its state gives,
/// and it has room for the objects.
pub open spec fn can_build(books: Books, width: i32, height: i32, samples: i32, objects: nat) -> bool {
    &&& width > 0
    &&& height > 0
    &&& samples >= 1
    &&& books.forced_status is None
    &&& has_room(books, objects)
}

/// What is owed for a single-sample target where the context is sure to
/// build it: the target is built, complete and of the size asked for, under
/// the next names; it is set up in the context; and the window is the draw
/// target again.
pub open spec fn simple_promise(
    before: Books,
    end: Books,
    result: Option<Result<SimpleFramebufferView, RenderErrorView>>,
    width: i32,
    height: i32,
) -> bool {
    &&& result matches Some(Ok(target))
    &&& target.well_formed()
    &&& target.completeness == Completeness::Complete
    &&& target.size == (IVec2 { x: width, y: height })
    &&& target.fbo_id == before.last_name + 1
    &&& target.texture_id == before.last_name + 2
    &&& target.depth_buffer_id == before.last_name + 3
    &&& simple_set_up(target, end.state)
    &&& end.state.draw_framebuffer == 0
}

/// What is owed for a multisampled target where the context is sure to
/// build it: the target is built, complete, of the size and with the sample
/// count asked for, under the next names; and the window is the draw target
/// again.
pub open spec fn multisample_promise(
    before: Books,
    end: Books,
    result: Option<Result<FrameBufferMultisampleView, RenderErrorView>>,
    width: i32,
    height: i32,
    samples: i32,
) -> bool {
    &&& result matches Some(Ok(target))
    &&& target.well_formed()
    &&& target.completeness == Completeness::Complete
    &&& target.size == (IVec2 { x: width, y: height })
    &&& target.samples == samples
    &&& target.fbo_id == before.last_name + 1
    &&& target.texture_id == before.last_name + 2
    &&& target.depth_buffer_id == before.last_name + 3
    &&& end.state.draw_framebuffer == 0
}

/// What is owed for a bloom target where the context is sure to build it:
/// the target is built under the next twenty-one names, complete and with
/// every part at the size asked for; it is set up in the context; and the
/// window is the draw target again.
pub open spec fn bloom_promise(
    before: Books,
    end: Books,
    result: Option<Result<BloomFramebufferView, RenderErrorView>>,
    width: i32,
    height: i32,
    samples: i32,
    do_bloom: bool,
    bloom_levels: i32,
) -> bool {
    &&& result == Some(
        Ok::<BloomFramebufferView, RenderErrorView>(
            bloom_built(before.last_name, width, height, samples, do_bloom, bloom_levels),
        ),
    )
    &&& bloom_built(before.last_name, width, height, samples, do_bloom, bloom_levels).well_formed()
    &&& bloom_set_up(
        bloom_built(before.last_name, width, height, samples, do_bloom, bloom_levels),
        end.state,
    )
    &&& end.state.draw_framebuffer == 0
}

/// The construction of a multisampled target asks only while it has had
/// fewer than four answers.
pub proof fn lemma_multisample_ends(
    width: i32,
    height: i32,
    samples: i32,
    policy: IncompleteAttachmentPolicy,
    r: Seq<u32>,
)
    ensures
        FrameBufferMultisample::new_from(width, height, samples, policy, r, seq![]) is Ask
            ==> r.len() < 4,
{
}

/// The construction of a bloom target asks only while it has had fewer than
/// twenty-five answers.
pub proof fn lemma_bloom_ends(
    width: i32,
    height: i32,
    samples: i32,
    do_bloom: bool,
    bloom_levels: i32,
    policy: IncompleteAttachmentPolicy,
    r: Seq<u32>,
)
    ensures
        BloomFramebuffer::new_from(width, height, samples, do_bloom, bloom_levels, policy, r)
            is Ask ==> r.len() < 25,
{
    if r.len() >= 25 {
        let quad = (crate::renderable::gl_renderable::GlRenderable::<
            crate::vertex_3d::Vertex3d,
        >::Uninitialised { _phantom: core::marker::PhantomData }).initialise_from(
            6,
            None,
            r.skip(5),
            crate::framebuffer::simple_framebuffer::draw_to_window(),
        );
        assert(!(quad is Ask));
        if quad is Built {
            let after_quad = quad->Built_commands;
            lemma_new_ends(width, height, policy, r.skip(7), after_quad);
            let ping = SimpleFramebuffer::new_from(width, height, policy, r.skip(7), after_quad);
            if ping is Built {
                let after_ping = ping->Built_commands;
                lemma_new_ends(width, height, policy, r.skip(13), after_ping);
                let pong = SimpleFramebuffer::new_from(
                    width,
                    height,
                    policy,
                    r.skip(13),
                    after_ping,
                );
                if pong is Built {
                    let after_pong = pong->Built_commands;
                    lemma_new_ends(width, height, policy, r.skip(19), after_pong);
                }
            }
        }
    }
}

impl GraphicsContext {
    /// Builds a single-sample target of `width` by `height` pixels on this
    /// context: the context runs the commands of each step of the
    /// construction and answers its questions, until the target is built or
    /// the construction has failed.
    ///
    /// For a positive width and height the construction succeeds, on a
    /// context that reports the status that its state gives and has room for
    /// the five objects of the target.
    pub fn create_simple(
        &mut self,
        width: i32,
        height: i32,
        policy: IncompleteAttachmentPolicy,
    ) -> (result: Result<SimpleFramebuffer, RenderError>)
        requires
            old(self)@.wf(),
        ensures
            final(self)@.wf(),
            old(self)@.driven(simple_plan(width, height, policy), seq![], 6) == (
                final(self)@,
                Some(outcome(result)),
            ),
            can_build(old(self)@, width, height, 1, 5) ==> simple_promise(
                old(self)@,
                final(self)@,
                Some(outcome(result)),
                width,
                height,
            ),
    {
        let ghost plan = simple_plan(width, height, policy);
        let ghost end = old(self)@.driven(plan, seq![], 6);
        proof {
            if can_build(old(self)@, width, height, 1, 5) {
                lemma_simple_created(old(self)@, width, height, policy);
            }
        }
        let mut replies: Vec<u32> = Vec::new();
        loop
            invariant
                self@.wf(),
                replies@.len() <= 6,
                plan == simple_plan(width, height, policy),
                self@.driven(plan, replies@, 6) == end,
                end == old(self)@.driven(plan, seq![], 6),
                can_build(old(self)@, width, height, 1, 5) ==> simple_promise(
                    old(self)@,
                    end.0,
                    end.1,
                    width,
                    height,
                ),
            decreases 6 - replies@.len(),
        {
            proof {
                lemma_new_ends(width, height, policy, replies@, seq![]);
            }
            match SimpleFramebuffer::new(width, height, policy, &replies) {
                Construction::Ask { commands, query } => {
                    self.run(&commands);
                    let reply = self.answer(query);
                    replies.push(reply);
                },
                Construction::Built { commands, value } => {
                    self.run(&commands);
                    return Ok(value);
                },
                Construction::Failed { commands, error } => {
                    self.run(&commands);
                    return Err(error);
                },
            }
        }
    }

    /// Builds a multisampled target of `width` by `height` pixels with
    /// `samples` samples each on this context.
    ///
    /// For a positive width and height and at least one sample the
    /// construction succeeds, on a context that reports the status that its
    /// state gives and has room for the three objects of the target.
    pub fn create_multisample(
        &mut self,
        width: i32,
        height: i32,
        samples: i32,
        policy: IncompleteAttachmentPolicy,
    ) -> (result: Result<FrameBufferMultisample, RenderError>)
        requires
            old(self)@.wf(),
        ensures
            final(self)@.wf(),
            old(self)@.driven(multisample_plan(width, height, samples, policy), seq![], 4) == (
                final(self)@,
                Some(outcome(result)),
            ),
            can_build(old(self)@, width, height, samples, 3) ==> multisample_promise(
                old(self)@,
                final(self)@,
                Some(outcome(result)),
                width,
                height,
                samples,
            ),
    {
        let ghost plan = multisample_plan(width, height, samples, policy);
        let ghost end = old(self)@.driven(plan, seq![], 4);
        proof {
            if can_build(old(self)@, width, height, samples, 3) {
                lemma_multisample_created(old(self)@, width, height, samples, policy);
            }
        }
        let mut replies: Vec<u32> = Vec::new();
        loop
            invariant
                self@.wf(),
                replies@.len() <= 4,
                plan == multisample_plan(width, height, samples, policy),
                self@.driven(plan, replies@, 4) == end,
                end == old(self)@.driven(plan, seq![], 4),
                can_build(old(self)@, width, height, samples, 3) ==> multisample_promise(
                    old(self)@,
                    end.0,
                    end.1,
                    width,
                    height,
                    samples,
                ),
            decreases 4 - replies@.len(),
        {
            proof {
                lemma_multisample_ends(width, height, samples, policy, replies@);
            }
            match FrameBufferMultisample::new(width, height, samples, policy, &replies) {
                Construction::Ask { commands, query } => {
                    self.run(&commands);
                    let reply = self.answer(query);
                    replies.push(reply);
                },
                Construction::Built { commands, value } => {
                    self.run(&commands);
                    return Ok(value);
                },
                Construction::Failed { commands, error } => {
                    self.run(&commands);
                    return Err(error);
                },
            }
        }
    }

    /// Builds a bloom target of `width` by `height` pixels with `samples`
    /// samples each on this context.
    ///
    /// For a positive width and height and at least one sample the
    /// construction succeeds, on a context that reports the status that its
    /// state gives and has room for the twenty-one objects of the target.
    pub fn create_bloom(
        &mut self,
        width: i32,
        height: i32,
        samples: i32,
        do_bloom: bool,
        bloom_levels: i32,
        policy: IncompleteAttachmentPolicy,
    ) -> (result: Result<BloomFramebuffer, RenderError>)
        requires
            old(self)@.wf(),
        ensures
            final(self)@.wf(),
            old(self)@.driven(
                bloom_plan(width, height, samples, do_bloom, bloom_levels, policy),
                seq![],
                25,
            ) == (final(self)@, Some(outcome(result))),
            can_build(old(self)@, width, height, samples, 21) ==> bloom_promise(
                old(self)@,
                final(self)@,
                Some(outcome(result)),
                width,
                height,
                samples,
                do_bloom,
                bloom_levels,
            ),
    {
        let ghost plan = bloom_plan(width, height, samples, do_bloom, bloom_levels, policy);
        let ghost end = old(self)@.driven(plan, seq![], 25);
        proof {
            if can_build(old(self)@, width, height, samples, 21) {
                lemma_bloom_created(
                    old(self)@,
                    width,
                    height,
                    samples,
                    do_bloom,
                    bloom_levels,
                    policy,
                );
            }
        }
        let mut replies: Vec<u32> = Vec::new();
        loop
            invariant
                self@.wf(),
                replies@.len() <= 25,
                plan == bloom_plan(width, height, samples, do_bloom, bloom_levels, policy),
                self@.driven(plan, replies@, 25) == end,
                end == old(self)@.driven(plan, seq![], 25),
                can_build(old(self)@, width, height, samples, 21) ==> bloom_promise(
                    old(self)@,
                    end.0,
                    end.1,
                    width,
                    height,
                    samples,
                    do_bloom,
                    bloom_levels,
                ),
            decreases 25 - replies@.len(),
        {
            proof {
                lemma_bloom_ends(
                    width,
                    height,
                    samples,
                    do_bloom,
                    bloom_levels,
                    policy,
                    replies@,
                );
            }
            match BloomFramebuffer::new(
                width,
                height,
                samples,
                do_bloom,
                bloom_levels,
                policy,
                &replies,
            ) {
                Construction::Ask { commands, query } => {
                    self.run(&commands);
                    let reply = self.answer(query);
                    replies.push(reply);
                },
                Construction::Built { commands, value } => {
                    self.run(&commands);
                    return Ok(value);
                },
                Construction::Failed { commands, error } => {
                    self.run(&commands);
                    return Err(error);
                },
            }
        }
    }
}

} // verus!
