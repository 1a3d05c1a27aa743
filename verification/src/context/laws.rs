//! What comes of building render targets on the book-keeping context.

use vstd::prelude::*;
use crate::command::GlCommand;
use crate::constants::{DEPTH24_STENCIL8, FRAMEBUFFER_COMPLETE, RGBA};
use crate::context::double::Books;
use crate::context::driver::{multisample_plan, simple_plan};
use crate::context::state::{lemma_one_by_one, new_framebuffer, ContextState, Fill, Texture};
use crate::framebuffer::laws::{lemma_simple_setup_completes, simple_set_up};
use crate::framebuffer::multisample_framebuffer::{
    attach, sample_storage, FrameBufferMultisampleView,
};
use crate::framebuffer::multisample_laws::lemma_multisample_setup_completes;
use crate::framebuffer::simple_framebuffer::{draw_to_window, setup, SimpleFramebufferView};
use crate::framebuffer::status::{Completeness, IncompleteAttachmentPolicy};
use crate::plan::Outline;
use crate::renderable::gl_renderable::{unbind_all, upload_vertices, GlRenderable};
use crate::vertex_2d::Vertex2d;

verus! {

/// Whether the model takes no notice of a command.
pub open spec fn unnoticed(command: GlCommand) -> bool {
    command is BindVertexArray || command is BindBuffer || command is BufferData
        || command is VertexAttribPointer || command is EnableVertexAttribArray
        || command is TexParameteri || command is PixelStorei || command is DrawBuffers
        || command is UseProgram || command is SetUniform
}

/// Commands that the model takes no notice of leave the state as it is.
pub proof fn lemma_unnoticed(state: ContextState, commands: Seq<GlCommand>)
    requires
        forall|i: int| 0 <= i < commands.len() ==> unnoticed(#[trigger] commands[i]),
    ensures
        state.apply_all(commands) == state,
    decreases commands.len(),
{
    if commands.len() > 0 {
        let rest = commands.skip(1);
        assert(unnoticed(commands[0]));
        assert forall|i: int| 0 <= i < rest.len() implies unnoticed(#[trigger] rest[i]) by {
            assert(rest[i] == commands[i + 1]);
        }
        lemma_unnoticed(state, rest);
    }
}

/// Whether the context can hand out `count` more names.
pub open spec fn has_room(books: Books, count: nat) -> bool {
    &&& books.last_name + count <= u32::MAX
    &&& match books.budget {
        Some(left) => left >= count,
        None => true,
    }
}

/// A context that has room for one more object answers the request for one
/// with the next name, which no object had before, and has room for one
/// less.
pub proof fn lemma_answer_is_fresh(books: Books, count: nat)
    requires
        books.wf(),
        has_room(books, count),
        count >= 1,
    ensures
        forall|query: crate::command::GlQuery|
            !(query is CheckFramebufferStatus) ==> {
                &&& #[trigger] books.reply(query) == books.last_name + 1
                &&& books.answered(query).wf()
                &&& books.answered(query).last_name == books.last_name + 1
                &&& has_room(books.answered(query), (count - 1) as nat)
                &&& books.answered(query).forced_status == books.forced_status
                &&& books.answered(query).state == books.state.granted(
                    query,
                    (books.last_name + 1) as u32,
                )
            },
{
}

/// On a context that reports the status that its state gives and has room
/// for five more objects, the construction of a single-sample target
/// succeeds for every positive width and height. The target is complete,
/// well formed and of the size asked for; its five names are the next five;
/// it is set up in the context; and the window is the draw target again.
pub proof fn lemma_simple_created(
    books: Books,
    width: i32,
    height: i32,
    policy: IncompleteAttachmentPolicy,
)
    requires
        books.wf(),
        books.forced_status is None,
        has_room(books, 5),
        width > 0,
        height > 0,
    ensures
        ({
            let (end, result) = books.driven(simple_plan(width, height, policy), seq![], 6);
            &&& result matches Some(Ok(target))
            &&& target.well_formed()
            &&& target.completeness == Completeness::Complete
            &&& target.size == (crate::types::IVec2 { x: width, y: height })
            &&& target.fbo_id == books.last_name + 1
            &&& target.texture_id == books.last_name + 2
            &&& target.depth_buffer_id == books.last_name + 3
            &&& target.renderable == (GlRenderable::<Vertex2d>::Initialised {
                vao: (books.last_name + 4) as u32,
                vbo: (books.last_name + 5) as u32,
                vertex_count: 6,
            })
            &&& simple_set_up(target, end.state)
            &&& end.wf()
            &&& end.last_name == books.last_name + 5
            &&& end.state.draw_framebuffer == 0
            &&& end.state.vertex_arrays.contains(target.renderable->Initialised_vao)
            &&& end.state.buffers.contains(target.renderable->Initialised_vbo)
        }),
{
    let plan = simple_plan(width, height, policy);
    let n = books.last_name;
    let fbo = (n + 1) as u32;
    let texture = (n + 2) as u32;
    let depth = (n + 3) as u32;
    let vao = (n + 4) as u32;
    let vbo = (n + 5) as u32;
    let nothing = Seq::<GlCommand>::empty();

    // The framebuffer.
    let r0 = Seq::<u32>::empty();
    assert(plan(r0) == Outline::<SimpleFramebufferView>::Ask {
        commands: seq![],
        query: crate::command::GlQuery::GenFramebuffer,
    });
    assert(books.ran(nothing) == books);
    lemma_answer_is_fresh(books, 5);
    let b1 = books.answered(crate::command::GlQuery::GenFramebuffer);
    let r1 = r0.push(fbo);
    assert(books.driven(plan, r0, 6) == b1.driven(plan, r1, 6));

    // The colour texture.
    assert(r1[0] == fbo);
    assert(plan(r1) == Outline::<SimpleFramebufferView>::Ask {
        commands: seq![],
        query: crate::command::GlQuery::GenTexture,
    });
    assert(b1.ran(nothing) == b1);
    lemma_answer_is_fresh(b1, 4);
    let b2 = b1.answered(crate::command::GlQuery::GenTexture);
    let r2 = r1.push(texture);
    assert(b1.driven(plan, r1, 6) == b2.driven(plan, r2, 6));

    // The depth texture.
    assert(r2[0] == fbo && r2[1] == texture);
    assert(plan(r2) == Outline::<SimpleFramebufferView>::Ask {
        commands: seq![],
        query: crate::command::GlQuery::GenTexture,
    });
    assert(b2.ran(nothing) == b2);
    lemma_answer_is_fresh(b2, 3);
    let b3 = b2.answered(crate::command::GlQuery::GenTexture);
    let r3 = r2.push(depth);
    assert(b2.driven(plan, r2, 6) == b3.driven(plan, r3, 6));

    // The set-up and the status.
    assert(r3[0] == fbo && r3[1] == texture && r3[2] == depth);
    let commands = setup(fbo, texture, depth, width, height);
    assert(plan(r3) == Outline::<SimpleFramebufferView>::Ask {
        commands,
        query: crate::command::GlQuery::CheckFramebufferStatus,
    });
    assert(b3.state.framebuffers.contains_key(fbo));
    assert(b3.state.framebuffers[fbo] == new_framebuffer());
    assert(b3.state.textures.contains_key(texture));
    assert(b3.state.textures.contains_key(depth));
    lemma_simple_setup_completes(b3.state, fbo, texture, depth, width, height);
    let b4 = b3.ran(commands);
    assert(b4.wf()) by {
        assert(b3.state.framebuffers.dom() == b4.state.framebuffers.dom());
        assert(b3.state.textures.dom() == b4.state.textures.dom());
        assert forall|name: u32| #[trigger]
            b4.state.framebuffers.contains_key(name) implies 0 < name <= b4.last_name by {
            assert(b4.state.framebuffers.dom().contains(name));
            assert(b3.state.framebuffers.contains_key(name));
        }
        assert forall|name: u32| #[trigger]
            b4.state.textures.contains_key(name) implies 0 < name <= b4.last_name by {
            assert(b4.state.textures.dom().contains(name));
            assert(b3.state.textures.contains_key(name));
        }
    }
    assert(b4.reply(crate::command::GlQuery::CheckFramebufferStatus) == FRAMEBUFFER_COMPLETE);
    assert(b4.answered(crate::command::GlQuery::CheckFramebufferStatus) == b4);
    let r4 = r3.push(FRAMEBUFFER_COMPLETE);
    assert(b3.driven(plan, r3, 6) == b4.driven(plan, r4, 6));

    // The vertex array of the quad.
    assert(r4[0] == fbo && r4[1] == texture && r4[2] == depth && r4[3] == FRAMEBUFFER_COMPLETE);
    assert(r4.skip(4) =~= Seq::<u32>::empty());
    let blank = GlRenderable::<Vertex2d>::Uninitialised { _phantom: core::marker::PhantomData };
    assert(blank.release() =~= nothing);
    assert(draw_to_window() + blank.release() =~= draw_to_window());
    assert(plan(r4) == Outline::<SimpleFramebufferView>::Ask {
        commands: draw_to_window(),
        query: crate::command::GlQuery::GenVertexArray,
    });
    let b5 = b4.ran(draw_to_window());
    assert(b5.state == (ContextState { draw_framebuffer: 0, ..b4.state })) by {
        lemma_one_by_one(b4.state, draw_to_window());
        let s1 = b4.state.after(draw_to_window(), 1);
    }
    assert(b5.wf());
    lemma_answer_is_fresh(b5, 2);
    let b6 = b5.answered(crate::command::GlQuery::GenVertexArray);
    let r5 = r4.push(vao);
    assert(b4.driven(plan, r4, 6) == b6.driven(plan, r5, 6));

    // The vertex buffer of the quad.
    assert(r5[0] == fbo && r5[1] == texture && r5[2] == depth && r5[3] == FRAMEBUFFER_COMPLETE);
    assert(r5.skip(4) =~= seq![vao]);
    assert(plan(r5) == Outline::<SimpleFramebufferView>::Ask {
        commands: seq![],
        query: crate::command::GlQuery::GenBuffer,
    });
    assert(b6.ran(nothing) == b6);
    lemma_answer_is_fresh(b6, 1);
    let b7 = b6.answered(crate::command::GlQuery::GenBuffer);
    let r6 = r5.push(vbo);
    assert(b6.driven(plan, r5, 6) == b7.driven(plan, r6, 6));

    // The upload.
    assert(r6[0] == fbo && r6[1] == texture && r6[2] == depth && r6[3] == FRAMEBUFFER_COMPLETE);
    assert(r6.skip(4) =~= seq![vao, vbo]);
    let upload = upload_vertices::<Vertex2d>(vao, vbo, 6) + unbind_all();
    let target = SimpleFramebufferView {
        fbo_id: fbo,
        texture_id: texture,
        depth_buffer_id: depth,
        size: crate::types::IVec2 { x: width, y: height },
        renderable: GlRenderable::<Vertex2d>::Initialised { vao, vbo, vertex_count: 6 },
        clear_colour: crate::framebuffer::simple_framebuffer::opaque_black(),
        completeness: Completeness::Complete,
    };
    assert(plan(r6) == Outline::<SimpleFramebufferView>::Built { commands: upload, value: target });
    assert(b7.ran(upload) == b7) by {
        assert forall|i: int| 0 <= i < upload.len() implies unnoticed(#[trigger] upload[i]) by {}
        lemma_unnoticed(b7.state, upload);
    }
    assert(b7.driven(plan, r6, 6) == (
        b7,
        Some(Ok::<SimpleFramebufferView, crate::render_error::RenderErrorView>(target)),
    ));
}

/// On a context that reports the status that its state gives and has room
/// for three more objects, the construction of a multisampled target
/// succeeds for every positive width and height and every sample count of
/// at least one. The target is complete, well formed, of the size and with
/// the sample count asked for; its three names are the next three; its
/// textures have that storage; and the window is the draw target again.
pub proof fn lemma_multisample_created(
    books: Books,
    width: i32,
    height: i32,
    samples: i32,
    policy: IncompleteAttachmentPolicy,
)
    requires
        books.wf(),
        books.forced_status is None,
        has_room(books, 3),
        width > 0,
        height > 0,
        samples >= 1,
    ensures
        ({
            let (end, result) = books.driven(
                multisample_plan(width, height, samples, policy),
                seq![],
                4,
            );
            let stored = Texture { width, height, samples, fill: Fill::Unknown };
            &&& result matches Some(Ok(target))
            &&& target.well_formed()
            &&& target.completeness == Completeness::Complete
            &&& target.size == (crate::types::IVec2 { x: width, y: height })
            &&& target.samples == samples
            &&& target.fbo_id == books.last_name + 1
            &&& target.texture_id == books.last_name + 2
            &&& target.depth_buffer_id == books.last_name + 3
            &&& end.state.framebuffers.contains_key(target.fbo_id)
            &&& end.state.framebuffers[target.fbo_id].colour0 == target.texture_id
            &&& end.state.framebuffers[target.fbo_id].depth_stencil == target.depth_buffer_id
            &&& end.state.textures.contains_key(target.texture_id)
            &&& end.state.textures[target.texture_id] == stored
            &&& end.state.textures.contains_key(target.depth_buffer_id)
            &&& end.state.textures[target.depth_buffer_id] == stored
            &&& end.last_name == books.last_name + 3
            &&& end.state.draw_framebuffer == 0
        }),
{
    let plan = multisample_plan(width, height, samples, policy);
    let n = books.last_name;
    let fbo = (n + 1) as u32;
    let texture = (n + 2) as u32;
    let depth = (n + 3) as u32;
    let nothing = Seq::<GlCommand>::empty();

    let r0 = Seq::<u32>::empty();
    assert(plan(r0) == Outline::<FrameBufferMultisampleView>::Ask {
        commands: seq![],
        query: crate::command::GlQuery::GenFramebuffer,
    });
    assert(books.ran(nothing) == books);
    lemma_answer_is_fresh(books, 3);
    let b1 = books.answered(crate::command::GlQuery::GenFramebuffer);
    let r1 = r0.push(fbo);
    assert(books.driven(plan, r0, 4) == b1.driven(plan, r1, 4));

    assert(r1[0] == fbo);
    assert(plan(r1) == Outline::<FrameBufferMultisampleView>::Ask {
        commands: seq![],
        query: crate::command::GlQuery::GenTexture,
    });
    assert(b1.ran(nothing) == b1);
    lemma_answer_is_fresh(b1, 2);
    let b2 = b1.answered(crate::command::GlQuery::GenTexture);
    let r2 = r1.push(texture);
    assert(b1.driven(plan, r1, 4) == b2.driven(plan, r2, 4));

    assert(r2[0] == fbo && r2[1] == texture);
    assert(plan(r2) == Outline::<FrameBufferMultisampleView>::Ask {
        commands: seq![],
        query: crate::command::GlQuery::GenTexture,
    });
    assert(b2.ran(nothing) == b2);
    lemma_answer_is_fresh(b2, 1);
    let b3 = b2.answered(crate::command::GlQuery::GenTexture);
    let r3 = r2.push(depth);
    assert(b2.driven(plan, r2, 4) == b3.driven(plan, r3, 4));

    assert(r3[0] == fbo && r3[1] == texture && r3[2] == depth);
    let commands = sample_storage(texture, samples, RGBA, width, height) + sample_storage(
        depth,
        samples,
        DEPTH24_STENCIL8,
        width,
        height,
    ) + attach(fbo, texture, depth);
    assert(plan(r3) == Outline::<FrameBufferMultisampleView>::Ask {
        commands,
        query: crate::command::GlQuery::CheckFramebufferStatus,
    });
    assert(b3.state.framebuffers.contains_key(fbo));
    assert(b3.state.framebuffers[fbo] == new_framebuffer());
    assert(b3.state.textures.contains_key(texture));
    assert(b3.state.textures.contains_key(depth));
    lemma_multisample_setup_completes(b3.state, fbo, texture, depth, samples, width, height);
    let b4 = b3.ran(commands);
    assert(b4.reply(crate::command::GlQuery::CheckFramebufferStatus) == FRAMEBUFFER_COMPLETE);
    assert(b4.answered(crate::command::GlQuery::CheckFramebufferStatus) == b4);
    let r4 = r3.push(FRAMEBUFFER_COMPLETE);
    assert(b3.driven(plan, r3, 4) == b4.driven(plan, r4, 4));

    assert(r4[0] == fbo && r4[1] == texture && r4[2] == depth && r4[3] == FRAMEBUFFER_COMPLETE);
    let target = FrameBufferMultisampleView {
        fbo_id: fbo,
        texture_id: texture,
        depth_buffer_id: depth,
        size: crate::types::IVec2 { x: width, y: height },
        samples,
        completeness: Completeness::Complete,
    };
    assert(plan(r4) == Outline::<FrameBufferMultisampleView>::Built {
        commands: draw_to_window(),
        value: target,
    });
    let b5 = b4.ran(draw_to_window());
    assert(b5.state == (ContextState { draw_framebuffer: 0, ..b4.state })) by {
        lemma_one_by_one(b4.state, draw_to_window());
        let s1 = b4.state.after(draw_to_window(), 1);
    }
    assert(b4.driven(plan, r4, 4) == (b5, Some(
        Ok::<FrameBufferMultisampleView, crate::render_error::RenderErrorView>(target),
    )));
}

} // verus!
