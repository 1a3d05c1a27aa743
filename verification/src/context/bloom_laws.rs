//! What comes of building the bloom target on the book-keeping context.

use core::marker::PhantomData;
use vstd::prelude::*;
use crate::command::{GlCommand, GlQuery};
use crate::constants::FRAMEBUFFER_COMPLETE;
use crate::context::double::Books;
use crate::context::driver::bloom_plan;
use crate::context::laws::{has_room, lemma_answer_is_fresh, lemma_unnoticed, unnoticed};
use crate::context::state::{lemma_one_by_one, new_framebuffer, ContextState};
use crate::framebuffer::bloom_framebuffer::{attach, storage, BloomFramebufferView};
use crate::framebuffer::bloom_laws::{bloom_set_up, lemma_bloom_setup_completes};
use crate::framebuffer::laws::{lemma_simple_setup_completes, simple_set_up};
use crate::framebuffer::simple_framebuffer::{
    draw_to_window, opaque_black, setup, SimpleFramebuffer, SimpleFramebufferView,
};
use crate::framebuffer::status::{Completeness, IncompleteAttachmentPolicy};
use crate::plan::Outline;
use crate::renderable::gl_renderable::{unbind_all, upload_vertices, GlRenderable};
use crate::types::IVec2;
use crate::vertex_2d::Vertex2d;
use crate::vertex_3d::Vertex3d;

verus! {

/// Whether every object that is alive in `before` is alive and the same in
/// `after`.
pub open spec fn keeps(before: ContextState, after: ContextState) -> bool {
    &&& forall|name: u32| #[trigger]
        before.framebuffers.contains_key(name) ==> after.framebuffers.contains_key(name)
            && after.framebuffers[name] == before.framebuffers[name]
    &&& forall|name: u32| #[trigger]
        before.textures.contains_key(name) ==> after.textures.contains_key(name)
            && after.textures[name] == before.textures[name]
    &&& forall|name: u32| #[trigger]
        before.vertex_arrays.contains(name) ==> after.vertex_arrays.contains(name)
    &&& forall|name: u32| #[trigger] before.buffers.contains(name) ==> after.buffers.contains(name)
}

/// The answers that a context gives to the construction of a single-sample
/// target, from the name `n` on.
pub open spec fn simple_answers(n: u32) -> Seq<u32> {
    seq![
        (n + 1) as u32,
        (n + 2) as u32,
        (n + 3) as u32,
        FRAMEBUFFER_COMPLETE,
        (n + 4) as u32,
        (n + 5) as u32,
    ]
}

/// The single-sample target that a context builds from the name `n` on.
pub open spec fn simple_built(n: u32, width: i32, height: i32) -> SimpleFramebufferView {
    SimpleFramebufferView {
        fbo_id: (n + 1) as u32,
        texture_id: (n + 2) as u32,
        depth_buffer_id: (n + 3) as u32,
        size: IVec2 { x: width, y: height },
        renderable: GlRenderable::<Vertex2d>::Initialised {
            vao: (n + 4) as u32,
            vbo: (n + 5) as u32,
            vertex_count: 6,
        },
        clear_colour: opaque_black(),
        completeness: Completeness::Complete,
    }
}

/// The commands that upload the quad of the single-sample target that a
/// context builds from the name `n` on.
pub open spec fn simple_upload(n: u32) -> Seq<GlCommand> {
    upload_vertices::<Vertex2d>((n + 4) as u32, (n + 5) as u32, 6) + unbind_all()
}

/// A single-sample target as a part of a larger construction.
///
/// `plan` is the larger construction, `p` the answers that it has had, and
/// from there on it asks what the construction of the part asks, after the
/// commands `pending`, which the model takes no notice of. On a context
/// that reports the status that its state gives and has room for five more
/// objects, with positive width and height, driving the larger construction
/// comes to the point where the part has had its six answers: the next five
/// names and the status complete. The part is then set up in the context,
/// the window is the draw target, and what was alive before is alive and the
/// same.
pub proof fn lemma_simple_part<V>(
    books: Books,
    plan: spec_fn(Seq<u32>) -> Outline<V>,
    p: Seq<u32>,
    pending: Seq<GlCommand>,
    width: i32,
    height: i32,
    policy: IncompleteAttachmentPolicy,
    limit: nat,
)
    requires
        books.wf(),
        books.forced_status is None,
        has_room(books, 5),
        width > 0,
        height > 0,
        p.len() + 6 <= limit,
        forall|i: int| 0 <= i < pending.len() ==> unnoticed(#[trigger] pending[i]),
        forall|t: Seq<u32>|
            SimpleFramebuffer::new_from(width, height, policy, t, pending) is Ask ==> #[trigger] plan(
                p + t,
            ) == (Outline::<V>::Ask {
                commands: SimpleFramebuffer::new_from(
                    width,
                    height,
                    policy,
                    t,
                    pending,
                )->Ask_commands,
                query: SimpleFramebuffer::new_from(width, height, policy, t, pending)->Ask_query,
            }),
    ensures
        ({
            let n = books.last_name;
            let answers = simple_answers(n);
            let target = simple_built(n, width, height);
            let end = part_end(books, width, height);
            &&& books.driven(plan, p, limit) == end.driven(plan, p + answers, limit)
            &&& SimpleFramebuffer::new_from(width, height, policy, answers, pending) == (
            Outline::<SimpleFramebufferView>::Built {
                commands: simple_upload(n),
                value: target,
            })
            &&& target.well_formed()
            &&& simple_set_up(target, end.state)
            &&& end.wf()
            &&& end.forced_status is None
            &&& end.last_name == n + 5
            &&& end.budget == match books.budget {
                Some(left) => Some((left - 5) as u32),
                None => None,
            }
            &&& end.state.draw_framebuffer == 0
            &&& end.state.vertex_arrays.contains((n + 4) as u32)
            &&& end.state.buffers.contains((n + 5) as u32)
            &&& keeps(books.state, end.state)
            &&& forall|i: int| 0 <= i < simple_upload(n).len() ==> unnoticed(
                #[trigger] simple_upload(n)[i],
            )
        }),
{
    reveal(part_end);
    let n = books.last_name;
    let fbo = (n + 1) as u32;
    let texture = (n + 2) as u32;
    let depth = (n + 3) as u32;
    let vao = (n + 4) as u32;
    let vbo = (n + 5) as u32;
    let nothing = Seq::<GlCommand>::empty();
    let part = |t: Seq<u32>| SimpleFramebuffer::new_from(width, height, policy, t, pending);

    // The framebuffer.
    let t0 = Seq::<u32>::empty();
    assert(part(t0) == Outline::<SimpleFramebufferView>::Ask {
        commands: pending,
        query: GlQuery::GenFramebuffer,
    });
    assert(p + t0 =~= p);
    assert(plan(p + t0) == Outline::<V>::Ask { commands: pending, query: GlQuery::GenFramebuffer });
    lemma_unnoticed(books.state, pending);
    assert(books.ran(pending) == books);
    lemma_answer_is_fresh(books, 5);
    let b1 = books.answered(GlQuery::GenFramebuffer);
    let t1 = t0.push(fbo);
    assert(p.push(fbo) =~= p + t1);
    assert(books.driven(plan, p, limit) == b1.driven(plan, p + t1, limit));

    // The colour texture.
    assert(t1[0] == fbo);
    assert(part(t1) == Outline::<SimpleFramebufferView>::Ask {
        commands: seq![],
        query: GlQuery::GenTexture,
    });
    assert(plan(p + t1) == Outline::<V>::Ask { commands: seq![], query: GlQuery::GenTexture });
    assert(b1.ran(nothing) == b1);
    lemma_answer_is_fresh(b1, 4);
    let b2 = b1.answered(GlQuery::GenTexture);
    let t2 = t1.push(texture);
    assert((p + t1).push(texture) =~= p + t2);
    assert(b1.driven(plan, p + t1, limit) == b2.driven(plan, p + t2, limit));

    // The depth texture.
    assert(t2[0] == fbo && t2[1] == texture);
    assert(part(t2) == Outline::<SimpleFramebufferView>::Ask {
        commands: seq![],
        query: GlQuery::GenTexture,
    });
    assert(plan(p + t2) == Outline::<V>::Ask { commands: seq![], query: GlQuery::GenTexture });
    assert(b2.ran(nothing) == b2);
    lemma_answer_is_fresh(b2, 3);
    let b3 = b2.answered(GlQuery::GenTexture);
    let t3 = t2.push(depth);
    assert((p + t2).push(depth) =~= p + t3);
    assert(b2.driven(plan, p + t2, limit) == b3.driven(plan, p + t3, limit));

    // The set-up and the status.
    assert(t3[0] == fbo && t3[1] == texture && t3[2] == depth);
    let commands = setup(fbo, texture, depth, width, height);
    assert(part(t3) == Outline::<SimpleFramebufferView>::Ask {
        commands,
        query: GlQuery::CheckFramebufferStatus,
    });
    assert(plan(p + t3) == Outline::<V>::Ask { commands, query: GlQuery::CheckFramebufferStatus });
    assert(b3.state.framebuffers.contains_key(fbo));
    assert(b3.state.framebuffers[fbo] == new_framebuffer());
    assert(b3.state.textures.contains_key(texture));
    assert(b3.state.textures.contains_key(depth));
    lemma_simple_setup_completes(b3.state, fbo, texture, depth, width, height);
    crate::framebuffer::laws::lemma_simple_setup_state(
        b3.state,
        fbo,
        texture,
        depth,
        width,
        height,
    );
    let b4 = b3.ran(commands);
    assert(b4.wf()) by {
        assert forall|name: u32| #[trigger]
            b4.state.framebuffers.contains_key(name) implies 0 < name <= b4.last_name by {
            assert(b4.state.framebuffers.dom().contains(name));
            assert(b3.state.framebuffers.contains_key(name));
        }
        assert forall|name: u32| #[trigger]
            b4.state.textures.contains_key(name) implies 0 < name <= b4.last_name by {
            assert(b4.state.textures.dom().contains(name));
            assert(b3.state.textures.contains_key(name));
        }
    }
    assert(keeps(books.state, b4.state));
    assert(b4.reply(GlQuery::CheckFramebufferStatus) == FRAMEBUFFER_COMPLETE);
    assert(b4.answered(GlQuery::CheckFramebufferStatus) == b4);
    let t4 = t3.push(FRAMEBUFFER_COMPLETE);
    assert((p + t3).push(FRAMEBUFFER_COMPLETE) =~= p + t4);
    assert(b3.driven(plan, p + t3, limit) == b4.driven(plan, p + t4, limit));

    // The vertex array of the quad.
    assert(t4[0] == fbo && t4[1] == texture && t4[2] == depth && t4[3] == FRAMEBUFFER_COMPLETE);
    assert(t4.skip(4) =~= Seq::<u32>::empty());
    let blank = GlRenderable::<Vertex2d>::Uninitialised { _phantom: PhantomData };
    assert(blank.release() =~= nothing);
    assert(draw_to_window() + blank.release() =~= draw_to_window());
    assert(part(t4) == Outline::<SimpleFramebufferView>::Ask {
        commands: draw_to_window(),
        query: GlQuery::GenVertexArray,
    });
    assert(plan(p + t4) == Outline::<V>::Ask {
        commands: draw_to_window(),
        query: GlQuery::GenVertexArray,
    });
    let b5 = b4.ran(draw_to_window());
    assert(b5.state == (ContextState { draw_framebuffer: 0, ..b4.state })) by {
        lemma_one_by_one(b4.state, draw_to_window());
        let s1 = b4.state.after(draw_to_window(), 1);
    }
    assert(b5.wf());
    lemma_answer_is_fresh(b5, 2);
    let b6 = b5.answered(GlQuery::GenVertexArray);
    let t5 = t4.push(vao);
    assert((p + t4).push(vao) =~= p + t5);
    assert(b4.driven(plan, p + t4, limit) == b6.driven(plan, p + t5, limit));

    // The vertex buffer of the quad.
    assert(t5[0] == fbo && t5[1] == texture && t5[2] == depth && t5[3] == FRAMEBUFFER_COMPLETE);
    assert(t5.skip(4) =~= seq![vao]);
    assert(part(t5) == Outline::<SimpleFramebufferView>::Ask {
        commands: seq![],
        query: GlQuery::GenBuffer,
    });
    assert(plan(p + t5) == Outline::<V>::Ask { commands: seq![], query: GlQuery::GenBuffer });
    assert(b6.ran(nothing) == b6);
    lemma_answer_is_fresh(b6, 1);
    let b7 = b6.answered(GlQuery::GenBuffer);
    let t6 = t5.push(vbo);
    assert((p + t5).push(vbo) =~= p + t6);
    assert(b6.driven(plan, p + t5, limit) == b7.driven(plan, p + t6, limit));

    // What is built.
    assert(t6 =~= simple_answers(n));
    assert(t6.skip(4) =~= seq![vao, vbo]);
    assert(b7 == part_end(books, width, height)) by {
        assert(b7.state.textures =~= part_end(books, width, height).state.textures);
        assert(b7.state.framebuffers =~= part_end(books, width, height).state.framebuffers);
        assert(b7.state.bindings =~= part_end(books, width, height).state.bindings);
    }
    assert forall|i: int| 0 <= i < simple_upload(n).len() implies unnoticed(
        #[trigger] simple_upload(n)[i],
    ) by {}
}

/// The books after a context has built a single-sample target as a part of
/// a larger construction, before the commands of the last step are run.
#[verifier::opaque]
pub open spec fn part_end(books: Books, width: i32, height: i32) -> Books {
    let n = books.last_name;
    let fbo = (n + 1) as u32;
    let texture = (n + 2) as u32;
    let depth = (n + 3) as u32;
    let vao = (n + 4) as u32;
    let vbo = (n + 5) as u32;
    let granted = ContextState {
        framebuffers: books.state.framebuffers.insert(fbo, new_framebuffer()),
        textures: books.state.textures.insert(texture, crate::context::state::new_texture()).insert(
            depth,
            crate::context::state::new_texture(),
        ),
        ..books.state
    };
    let set_up = crate::framebuffer::laws::simple_setup_state(
        granted,
        fbo,
        texture,
        depth,
        width,
        height,
    );
    Books {
        state: ContextState {
            draw_framebuffer: 0,
            vertex_arrays: books.state.vertex_arrays.insert(vao),
            buffers: books.state.buffers.insert(vbo),
            ..set_up
        },
        last_name: vbo,
        budget: match books.budget {
            Some(left) => Some((left - 5) as u32),
            None => None,
        },
        forced_status: books.forced_status,
    }
}

/// The construction of a single-sample target reads six answers: once it
/// is built, further answers change nothing.
pub proof fn lemma_simple_reads_six(
    width: i32,
    height: i32,
    policy: IncompleteAttachmentPolicy,
    answers: Seq<u32>,
    more: Seq<u32>,
    pending: Seq<GlCommand>,
)
    requires
        answers.len() == 6,
        SimpleFramebuffer::new_from(width, height, policy, answers, pending) is Built,
    ensures
        SimpleFramebuffer::new_from(width, height, policy, answers + more, pending)
            == SimpleFramebuffer::new_from(width, height, policy, answers, pending),
{
    let all = answers + more;
    assert(all[0] == answers[0] && all[1] == answers[1] && all[2] == answers[2] && all[3]
        == answers[3]);
    assert(all.skip(4)[0] == answers.skip(4)[0]);
    assert(all.skip(4)[1] == answers.skip(4)[1]);
}

/// The answers that a context gives to the construction of a bloom target,
/// from the name `n` on: the names in order, and the status complete for
/// each of the four framebuffers.
pub open spec fn bloom_answers(n: u32) -> Seq<u32> {
    seq![
        (n + 1) as u32,
        (n + 2) as u32,
        (n + 3) as u32,
        (n + 4) as u32,
        FRAMEBUFFER_COMPLETE,
        (n + 5) as u32,
        (n + 6) as u32,
    ] + simple_answers((n + 6) as u32) + simple_answers((n + 11) as u32) + simple_answers(
        (n + 16) as u32,
    )
}

/// The bloom target that a context builds from the name `n` on.
pub open spec fn bloom_built(
    n: u32,
    width: i32,
    height: i32,
    samples: i32,
    do_bloom: bool,
    bloom_levels: i32,
) -> BloomFramebufferView {
    BloomFramebufferView {
        fbo_id: (n + 1) as u32,
        texture_id: (n + 2) as u32,
        bloom_texture_id: (n + 3) as u32,
        depth_buffer_id: (n + 4) as u32,
        ping_pong_buffers: seq![
            simple_built((n + 6) as u32, width, height),
            simple_built((n + 11) as u32, width, height),
        ],
        out_buffer: simple_built((n + 16) as u32, width, height),
        size: IVec2 { x: width, y: height },
        samples,
        renderable: GlRenderable::<Vertex3d>::Initialised {
            vao: (n + 5) as u32,
            vbo: (n + 6) as u32,
            vertex_count: 6,
        },
        do_bloom,
        bloom_levels,
        completeness: Completeness::Complete,
    }
}

/// The commands that upload the quad of the bloom target that a context
/// builds from the name `n` on.
pub open spec fn bloom_upload(n: u32) -> Seq<GlCommand> {
    upload_vertices::<Vertex3d>((n + 5) as u32, (n + 6) as u32, 6) + unbind_all()
}

/// What the construction of a bloom target asks while its first blur target
/// is under construction, given the first seven answers of a context.
proof fn lemma_bloom_plan_at_ping(
    n: u32,
    width: i32,
    height: i32,
    samples: i32,
    do_bloom: bool,
    bloom_levels: i32,
    policy: IncompleteAttachmentPolicy,
    t: Seq<u32>,
)
    requires
        n + 21 <= u32::MAX,
    ensures
        ({
            let plan = bloom_plan(width, height, samples, do_bloom, bloom_levels, policy);
            let p = bloom_answers(n).subrange(0, 7);
            let part = SimpleFramebuffer::new_from(width, height, policy, t, bloom_upload(n));
            part is Ask ==> plan(p + t) == (Outline::<BloomFramebufferView>::Ask {
                commands: part->Ask_commands,
                query: part->Ask_query,
            })
        }),
{
    let p = bloom_answers(n).subrange(0, 7);
    let r = p + t;
    assert(r[0] == n + 1 && r[1] == n + 2 && r[2] == n + 3 && r[3] == n + 4 && r[4]
        == FRAMEBUFFER_COMPLETE);
    assert(r.skip(5)[0] == n + 5);
    assert(r.skip(5)[1] == n + 6);
    assert(r.skip(7) =~= t);
}

/// What the construction of a bloom target asks while its second blur
/// target is under construction, given the first thirteen answers of a
/// context.
proof fn lemma_bloom_plan_at_pong(
    n: u32,
    width: i32,
    height: i32,
    samples: i32,
    do_bloom: bool,
    bloom_levels: i32,
    policy: IncompleteAttachmentPolicy,
    t: Seq<u32>,
)
    requires
        n + 21 <= u32::MAX,
        SimpleFramebuffer::new_from(
            width,
            height,
            policy,
            simple_answers((n + 6) as u32),
            bloom_upload(n),
        ) == (Outline::<SimpleFramebufferView>::Built {
            commands: simple_upload((n + 6) as u32),
            value: simple_built((n + 6) as u32, width, height),
        }),
    ensures
        ({
            let plan = bloom_plan(width, height, samples, do_bloom, bloom_levels, policy);
            let p = bloom_answers(n).subrange(0, 13);
            let part = SimpleFramebuffer::new_from(
                width,
                height,
                policy,
                t,
                simple_upload((n + 6) as u32),
            );
            part is Ask ==> plan(p + t) == (Outline::<BloomFramebufferView>::Ask {
                commands: part->Ask_commands,
                query: part->Ask_query,
            })
        }),
{
    let p = bloom_answers(n).subrange(0, 13);
    let r = p + t;
    assert(r[0] == n + 1 && r[1] == n + 2 && r[2] == n + 3 && r[3] == n + 4 && r[4]
        == FRAMEBUFFER_COMPLETE);
    assert(r.skip(5)[0] == n + 5);
    assert(r.skip(5)[1] == n + 6);
    let first = simple_answers((n + 6) as u32);
    assert(r.skip(7) =~= first + (bloom_answers(n).subrange(13, 13) + t));
    lemma_simple_reads_six(
        width,
        height,
        policy,
        first,
        bloom_answers(n).subrange(13, 13) + t,
        bloom_upload(n),
    );
    assert(r.skip(13) =~= t);
}

/// What the construction of a bloom target asks while its resolved target
/// is under construction, given the first nineteen answers of a context, and
/// what it builds from all twenty-five.
proof fn lemma_bloom_plan_at_out(
    n: u32,
    width: i32,
    height: i32,
    samples: i32,
    do_bloom: bool,
    bloom_levels: i32,
    policy: IncompleteAttachmentPolicy,
    t: Seq<u32>,
)
    requires
        n + 21 <= u32::MAX,
        SimpleFramebuffer::new_from(
            width,
            height,
            policy,
            simple_answers((n + 6) as u32),
            bloom_upload(n),
        ) == (Outline::<SimpleFramebufferView>::Built {
            commands: simple_upload((n + 6) as u32),
            value: simple_built((n + 6) as u32, width, height),
        }),
        SimpleFramebuffer::new_from(
            width,
            height,
            policy,
            simple_answers((n + 11) as u32),
            simple_upload((n + 6) as u32),
        ) == (Outline::<SimpleFramebufferView>::Built {
            commands: simple_upload((n + 11) as u32),
            value: simple_built((n + 11) as u32, width, height),
        }),
    ensures
        ({
            let plan = bloom_plan(width, height, samples, do_bloom, bloom_levels, policy);
            let p = bloom_answers(n).subrange(0, 19);
            let part = SimpleFramebuffer::new_from(
                width,
                height,
                policy,
                t,
                simple_upload((n + 11) as u32),
            );
            &&& part is Ask ==> plan(p + t) == (Outline::<BloomFramebufferView>::Ask {
                commands: part->Ask_commands,
                query: part->Ask_query,
            })
            &&& part == (Outline::<SimpleFramebufferView>::Built {
                commands: simple_upload((n + 16) as u32),
                value: simple_built((n + 16) as u32, width, height),
            }) ==> plan(p + t) == (Outline::<BloomFramebufferView>::Built {
                commands: simple_upload((n + 16) as u32),
                value: bloom_built(n, width, height, samples, do_bloom, bloom_levels),
            })
        }),
{
    let p = bloom_answers(n).subrange(0, 19);
    let r = p + t;
    assert(r[0] == n + 1 && r[1] == n + 2 && r[2] == n + 3 && r[3] == n + 4 && r[4]
        == FRAMEBUFFER_COMPLETE);
    assert(r.skip(5)[0] == n + 5);
    assert(r.skip(5)[1] == n + 6);
    let first = simple_answers((n + 6) as u32);
    let second = simple_answers((n + 11) as u32);
    assert(r.skip(7) =~= first + (second + t));
    lemma_simple_reads_six(width, height, policy, first, second + t, bloom_upload(n));
    assert(r.skip(13) =~= second + t);
    lemma_simple_reads_six(
        width,
        height,
        policy,
        second,
        t,
        simple_upload((n + 6) as u32),
    );
    assert(r.skip(19) =~= t);
}

/// The books after a context has built the framebuffer and the quad of a
/// bloom target, before the upload of the quad is run: four names for the
/// framebuffer and its textures, the set-up, the window bound again, and two
/// names for the quad.
#[verifier::opaque]
pub open spec fn own_end(books: Books, width: i32, height: i32, samples: i32) -> Books {
    let n = books.last_name;
    let granted = books.answered(GlQuery::GenFramebuffer).answered(GlQuery::GenTexture).answered(
        GlQuery::GenTexture,
    ).answered(GlQuery::GenTexture);
    granted.ran(
        storage((n + 2) as u32, (n + 3) as u32, (n + 4) as u32, samples, width, height) + attach(
            (n + 1) as u32,
            (n + 2) as u32,
            (n + 3) as u32,
            (n + 4) as u32,
        ),
    ).ran(draw_to_window()).answered(GlQuery::GenVertexArray).answered(GlQuery::GenBuffer)
}

/// Whether the framebuffer of the bloom target that a context builds from
/// the name `n` on is set up in `state` with its three textures.
pub open spec fn own_set_up(n: u32, state: ContextState) -> bool {
    &&& state.framebuffers.contains_key((n + 1) as u32)
    &&& state.framebuffers[(n + 1) as u32].colour0 == n + 2
    &&& state.framebuffers[(n + 1) as u32].colour1 == n + 3
    &&& state.framebuffers[(n + 1) as u32].depth_stencil == n + 4
    &&& state.textures.contains_key((n + 2) as u32)
    &&& state.textures.contains_key((n + 3) as u32)
    &&& state.textures.contains_key((n + 4) as u32)
}

/// Keeping is transitive, and a target that is set up stays set up where
/// everything is kept.
pub proof fn lemma_keeps(first: ContextState, second: ContextState, third: ContextState)
    requires
        keeps(first, second),
        keeps(second, third),
    ensures
        keeps(first, third),
        forall|target: SimpleFramebufferView| #[trigger]
            simple_set_up(target, second) ==> simple_set_up(target, third),
        forall|n: u32| #[trigger] own_set_up(n, second) ==> own_set_up(n, third),
{
}

/// The first seven steps of the construction of a bloom target on a
/// context: the framebuffer with its three textures is set up and complete,
/// and the quad has its names.
pub proof fn lemma_bloom_own(
    books: Books,
    width: i32,
    height: i32,
    samples: i32,
    do_bloom: bool,
    bloom_levels: i32,
    policy: IncompleteAttachmentPolicy,
)
    requires
        books.wf(),
        books.forced_status is None,
        has_room(books, 21),
        width > 0,
        height > 0,
        samples >= 1,
    ensures
        ({
            let plan = bloom_plan(width, height, samples, do_bloom, bloom_levels, policy);
            let end = own_end(books, width, height, samples);
            let n = books.last_name;
            &&& books.driven(plan, seq![], 25) == end.driven(
                plan,
                bloom_answers(n).subrange(0, 7),
                25,
            )
            &&& end.wf()
            &&& end.forced_status is None
            &&& end.last_name == n + 6
            &&& has_room(end, 15)
            &&& end.state.draw_framebuffer == 0
            &&& keeps(books.state, end.state)
            &&& own_set_up(n, end.state)
            &&& end.state.vertex_arrays.contains((n + 5) as u32)
            &&& end.state.buffers.contains((n + 6) as u32)
        }),
{
    reveal(own_end);
    let plan = bloom_plan(width, height, samples, do_bloom, bloom_levels, policy);
    let n = books.last_name;
    let fbo = (n + 1) as u32;
    let texture = (n + 2) as u32;
    let bloom = (n + 3) as u32;
    let depth = (n + 4) as u32;
    let vao = (n + 5) as u32;
    let vbo = (n + 6) as u32;
    let nothing = Seq::<GlCommand>::empty();
    let all = bloom_answers(n);

    // The framebuffer and its three textures.
    let r0 = Seq::<u32>::empty();
    assert(plan(r0) == Outline::<BloomFramebufferView>::Ask {
        commands: seq![],
        query: GlQuery::GenFramebuffer,
    });
    assert(books.ran(nothing) == books);
    lemma_answer_is_fresh(books, 21);
    let b1 = books.answered(GlQuery::GenFramebuffer);
    let r1 = r0.push(fbo);
    assert(books.driven(plan, r0, 25) == b1.driven(plan, r1, 25));

    assert(r1[0] == fbo);
    assert(plan(r1) == Outline::<BloomFramebufferView>::Ask {
        commands: seq![],
        query: GlQuery::GenTexture,
    });
    assert(b1.ran(nothing) == b1);
    lemma_answer_is_fresh(b1, 20);
    let b2 = b1.answered(GlQuery::GenTexture);
    let r2 = r1.push(texture);
    assert(b1.driven(plan, r1, 25) == b2.driven(plan, r2, 25));

    assert(r2[0] == fbo && r2[1] == texture);
    assert(plan(r2) == Outline::<BloomFramebufferView>::Ask {
        commands: seq![],
        query: GlQuery::GenTexture,
    });
    assert(b2.ran(nothing) == b2);
    lemma_answer_is_fresh(b2, 19);
    let b3 = b2.answered(GlQuery::GenTexture);
    let r3 = r2.push(bloom);
    assert(b2.driven(plan, r2, 25) == b3.driven(plan, r3, 25));

    assert(r3[0] == fbo && r3[1] == texture && r3[2] == bloom);
    assert(plan(r3) == Outline::<BloomFramebufferView>::Ask {
        commands: seq![],
        query: GlQuery::GenTexture,
    });
    assert(b3.ran(nothing) == b3);
    lemma_answer_is_fresh(b3, 18);
    let b4 = b3.answered(GlQuery::GenTexture);
    let r4 = r3.push(depth);
    assert(b3.driven(plan, r3, 25) == b4.driven(plan, r4, 25));
    assert(keeps(books.state, b4.state));

    // The set-up and the status.
    assert(r4[0] == fbo && r4[1] == texture && r4[2] == bloom && r4[3] == depth);
    let commands = storage(texture, bloom, depth, samples, width, height) + attach(
        fbo,
        texture,
        bloom,
        depth,
    );
    assert(plan(r4) == Outline::<BloomFramebufferView>::Ask {
        commands,
        query: GlQuery::CheckFramebufferStatus,
    });
    let b5 = b4.ran(commands);
    lemma_own_set_up(b4, n, samples, width, height);
    assert(b5.reply(GlQuery::CheckFramebufferStatus) == FRAMEBUFFER_COMPLETE);
    assert(b5.answered(GlQuery::CheckFramebufferStatus) == b5);
    let r5 = r4.push(FRAMEBUFFER_COMPLETE);
    assert(b4.driven(plan, r4, 25) == b5.driven(plan, r5, 25));

    // The quad.
    assert(r5[0] == fbo && r5[1] == texture && r5[2] == bloom && r5[3] == depth && r5[4]
        == FRAMEBUFFER_COMPLETE);
    assert(r5.skip(5) =~= Seq::<u32>::empty());
    let blank = GlRenderable::<Vertex3d>::Uninitialised { _phantom: PhantomData };
    assert(blank.release() =~= nothing);
    assert(draw_to_window() + blank.release() =~= draw_to_window());
    assert(plan(r5) == Outline::<BloomFramebufferView>::Ask {
        commands: draw_to_window(),
        query: GlQuery::GenVertexArray,
    });
    let b6 = b5.ran(draw_to_window());
    assert(b6.state == (ContextState { draw_framebuffer: 0, ..b5.state })) by {
        lemma_one_by_one(b5.state, draw_to_window());
        let s1 = b5.state.after(draw_to_window(), 1);
    }
    assert(b6.wf());
    lemma_answer_is_fresh(b6, 17);
    let b7 = b6.answered(GlQuery::GenVertexArray);
    let r6 = r5.push(vao);
    assert(b5.driven(plan, r5, 25) == b7.driven(plan, r6, 25));

    assert(r6[0] == fbo && r6[1] == texture && r6[2] == bloom && r6[3] == depth && r6[4]
        == FRAMEBUFFER_COMPLETE);
    assert(r6.skip(5) =~= seq![vao]);
    assert(plan(r6) == Outline::<BloomFramebufferView>::Ask {
        commands: seq![],
        query: GlQuery::GenBuffer,
    });
    assert(b7.ran(nothing) == b7);
    lemma_answer_is_fresh(b7, 16);
    let b8 = b7.answered(GlQuery::GenBuffer);
    let r7 = r6.push(vbo);
    assert(b7.driven(plan, r6, 25) == b8.driven(plan, r7, 25));
    assert(r7 =~= all.subrange(0, 7));
    assert(b8 == own_end(books, width, height, samples));
}

/// The set-up of the framebuffer of a bloom target on a context that has
/// just handed out its four names makes it complete, keeps the books well
/// formed and keeps everything else.
proof fn lemma_own_set_up(books: Books, n: u32, samples: i32, width: i32, height: i32)
    requires
        books.wf(),
        n + 4 == books.last_name,
        width > 0,
        height > 0,
        samples >= 1,
        books.state.framebuffers.contains_key((n + 1) as u32),
        books.state.textures.contains_key((n + 2) as u32),
        books.state.textures.contains_key((n + 3) as u32),
        books.state.textures.contains_key((n + 4) as u32),
    ensures
        ({
            let end = books.ran(
                storage((n + 2) as u32, (n + 3) as u32, (n + 4) as u32, samples, width, height)
                    + attach((n + 1) as u32, (n + 2) as u32, (n + 3) as u32, (n + 4) as u32),
            );
            &&& end.wf()
            &&& end.state.status() == FRAMEBUFFER_COMPLETE
            &&& own_set_up(n, end.state)
            &&& forall|name: u32|
                name <= n && #[trigger] books.state.framebuffers.contains_key(name)
                    ==> end.state.framebuffers.contains_key(name) && end.state.framebuffers[name]
                    == books.state.framebuffers[name]
            &&& forall|name: u32|
                name <= n && #[trigger] books.state.textures.contains_key(name)
                    ==> end.state.textures.contains_key(name) && end.state.textures[name]
                    == books.state.textures[name]
            &&& end.state.vertex_arrays == books.state.vertex_arrays
            &&& end.state.buffers == books.state.buffers
        }),
{
    let fbo = (n + 1) as u32;
    let texture = (n + 2) as u32;
    let bloom = (n + 3) as u32;
    let depth = (n + 4) as u32;
    lemma_bloom_setup_completes(books.state, fbo, texture, bloom, depth, samples, width, height);
    crate::framebuffer::bloom_laws::lemma_bloom_setup_state(
        books.state,
        fbo,
        texture,
        bloom,
        depth,
        samples,
        width,
        height,
    );
    let end = books.ran(
        storage(texture, bloom, depth, samples, width, height) + attach(fbo, texture, bloom, depth),
    );
    assert(end.wf()) by {
        assert forall|name: u32| #[trigger]
            end.state.framebuffers.contains_key(name) implies 0 < name <= end.last_name by {
            assert(end.state.framebuffers.dom().contains(name));
            assert(books.state.framebuffers.contains_key(name));
        }
        assert forall|name: u32| #[trigger]
            end.state.textures.contains_key(name) implies 0 < name <= end.last_name by {
            assert(end.state.textures.dom().contains(name));
            assert(books.state.textures.contains_key(name));
        }
    }
}

/// On a context that reports the status that its state gives and has room
/// for twenty-one more objects, the construction of a bloom target succeeds
/// for every positive width and height and every sample count of at least
/// one. The target is complete and well formed; each of its parts has the
/// size asked for; its names are the next twenty-one, so that its two blur
/// targets and its resolved target are different framebuffers with
/// different textures; it is set up in the context; the window is the draw
/// target again; and what was alive before is alive and the same.
pub proof fn lemma_bloom_created(
    books: Books,
    width: i32,
    height: i32,
    samples: i32,
    do_bloom: bool,
    bloom_levels: i32,
    policy: IncompleteAttachmentPolicy,
)
    requires
        books.wf(),
        books.forced_status is None,
        has_room(books, 21),
        width > 0,
        height > 0,
        samples >= 1,
    ensures
        ({
            let plan = bloom_plan(width, height, samples, do_bloom, bloom_levels, policy);
            let (end, result) = books.driven(plan, seq![], 25);
            let target = bloom_built(
                books.last_name,
                width,
                height,
                samples,
                do_bloom,
                bloom_levels,
            );
            &&& result == Some(
                Ok::<BloomFramebufferView, crate::render_error::RenderErrorView>(target),
            )
            &&& target.well_formed()
            &&& bloom_set_up(target, end.state)
            &&& end.wf()
            &&& end.last_name == books.last_name + 21
            &&& end.state.draw_framebuffer == 0
            &&& keeps(books.state, end.state)
        }),
{
    let plan = bloom_plan(width, height, samples, do_bloom, bloom_levels, policy);
    let n = books.last_name;
    lemma_bloom_own(books, width, height, samples, do_bloom, bloom_levels, policy);
    let b8 = own_end(books, width, height, samples);
    let first = (n + 6) as u32;
    let second = (n + 11) as u32;
    let third = (n + 16) as u32;

    // The first blur target.
    lemma_bloom_ping(b8, n, width, height, samples, do_bloom, bloom_levels, policy);
    let e1 = part_end(b8, width, height);

    // The second blur target.
    lemma_bloom_pong(e1, n, width, height, samples, do_bloom, bloom_levels, policy);
    let e2 = part_end(e1, width, height);

    // The resolved target.
    lemma_bloom_out(e2, n, width, height, samples, do_bloom, bloom_levels, policy);
    let e3 = part_end(e2, width, height);

    lemma_keeps(b8.state, e1.state, e2.state);
    lemma_keeps(b8.state, e2.state, e3.state);
    lemma_keeps(e1.state, e2.state, e3.state);
    lemma_keeps(books.state, b8.state, e3.state);
    assert(simple_set_up(simple_built(first, width, height), e3.state));
    assert(simple_set_up(simple_built(second, width, height), e3.state));
    assert(simple_set_up(simple_built(third, width, height), e3.state));
    assert(own_set_up(n, e3.state));
}

/// The construction of the first blur target of a bloom target on a
/// context.
proof fn lemma_bloom_ping(
    books: Books,
    n: u32,
    width: i32,
    height: i32,
    samples: i32,
    do_bloom: bool,
    bloom_levels: i32,
    policy: IncompleteAttachmentPolicy,
)
    requires
        books.wf(),
        books.forced_status is None,
        books.last_name == n + 6,
        has_room(books, 15),
        width > 0,
        height > 0,
    ensures
        ({
            let plan = bloom_plan(width, height, samples, do_bloom, bloom_levels, policy);
            let end = part_end(books, width, height);
            let built = simple_built(books.last_name, width, height);
            &&& books.driven(plan, bloom_answers(n).subrange(0, 7), 25) == end.driven(
                plan,
                bloom_answers(n).subrange(0, 13),
                25,
            )
            &&& SimpleFramebuffer::new_from(
                width,
                height,
                policy,
                simple_answers(books.last_name),
                bloom_upload(n),
            ) == (Outline::<SimpleFramebufferView>::Built {
                commands: simple_upload(books.last_name),
                value: built,
            })
            &&& part_facts(books, end, built)
            &&& has_room(end, 10)
        }),
{
    let plan = bloom_plan(width, height, samples, do_bloom, bloom_levels, policy);
    let r7 = bloom_answers(n).subrange(0, 7);
    assert forall|i: int| 0 <= i < bloom_upload(n).len() implies unnoticed(
        #[trigger] bloom_upload(n)[i],
    ) by {}
    assert forall|t: Seq<u32>|
        SimpleFramebuffer::new_from(width, height, policy, t, bloom_upload(n))
            is Ask implies #[trigger] plan(r7 + t) == (Outline::<BloomFramebufferView>::Ask {
        commands: SimpleFramebuffer::new_from(
            width,
            height,
            policy,
            t,
            bloom_upload(n),
        )->Ask_commands,
        query: SimpleFramebuffer::new_from(width, height, policy, t, bloom_upload(n))->Ask_query,
    }) by {
        lemma_bloom_plan_at_ping(n, width, height, samples, do_bloom, bloom_levels, policy, t);
    }
    lemma_simple_part(books, plan, r7, bloom_upload(n), width, height, policy, 25);
    assert(r7 + simple_answers(books.last_name) =~= bloom_answers(n).subrange(0, 13));
}

/// What is known of a part once it is built: it is well formed and set up,
/// the books are in order, the window is the draw target and what was alive
/// is kept.
pub open spec fn part_facts(books: Books, end: Books, built: SimpleFramebufferView) -> bool {
    &&& built.well_formed()
    &&& simple_set_up(built, end.state)
    &&& end.wf()
    &&& end.forced_status is None
    &&& end.last_name == books.last_name + 5
    &&& end.state.draw_framebuffer == 0
    &&& keeps(books.state, end.state)
}

/// The construction of the second blur target of a bloom target on a
/// context.
proof fn lemma_bloom_pong(
    books: Books,
    n: u32,
    width: i32,
    height: i32,
    samples: i32,
    do_bloom: bool,
    bloom_levels: i32,
    policy: IncompleteAttachmentPolicy,
)
    requires
        books.wf(),
        books.forced_status is None,
        books.last_name == n + 11,
        has_room(books, 10),
        width > 0,
        height > 0,
        SimpleFramebuffer::new_from(
            width,
            height,
            policy,
            simple_answers((n + 6) as u32),
            bloom_upload(n),
        ) == (Outline::<SimpleFramebufferView>::Built {
            commands: simple_upload((n + 6) as u32),
            value: simple_built((n + 6) as u32, width, height),
        }),
    ensures
        ({
            let plan = bloom_plan(width, height, samples, do_bloom, bloom_levels, policy);
            let end = part_end(books, width, height);
            let built = simple_built(books.last_name, width, height);
            &&& books.driven(plan, bloom_answers(n).subrange(0, 13), 25) == end.driven(
                plan,
                bloom_answers(n).subrange(0, 19),
                25,
            )
            &&& SimpleFramebuffer::new_from(
                width,
                height,
                policy,
                simple_answers(books.last_name),
                simple_upload((n + 6) as u32),
            ) == (Outline::<SimpleFramebufferView>::Built {
                commands: simple_upload(books.last_name),
                value: built,
            })
            &&& part_facts(books, end, built)
            &&& has_room(end, 5)
        }),
{
    let plan = bloom_plan(width, height, samples, do_bloom, bloom_levels, policy);
    let r13 = bloom_answers(n).subrange(0, 13);
    let pending = simple_upload((n + 6) as u32);
    assert forall|i: int| 0 <= i < pending.len() implies unnoticed(#[trigger] pending[i]) by {}
    assert forall|t: Seq<u32>|
        SimpleFramebuffer::new_from(width, height, policy, t, pending) is Ask implies #[trigger] plan(
            r13 + t,
        ) == (Outline::<BloomFramebufferView>::Ask {
            commands: SimpleFramebuffer::new_from(width, height, policy, t, pending)->Ask_commands,
            query: SimpleFramebuffer::new_from(width, height, policy, t, pending)->Ask_query,
        }) by {
        lemma_bloom_plan_at_pong(n, width, height, samples, do_bloom, bloom_levels, policy, t);
    }
    lemma_simple_part(books, plan, r13, pending, width, height, policy, 25);
    assert(r13 + simple_answers(books.last_name) =~= bloom_answers(n).subrange(0, 19));
}

/// The construction of the resolved target of a bloom target on a context,
/// which ends the construction of the bloom target.
proof fn lemma_bloom_out(
    books: Books,
    n: u32,
    width: i32,
    height: i32,
    samples: i32,
    do_bloom: bool,
    bloom_levels: i32,
    policy: IncompleteAttachmentPolicy,
)
    requires
        books.wf(),
        books.forced_status is None,
        books.last_name == n + 16,
        has_room(books, 5),
        width > 0,
        height > 0,
        SimpleFramebuffer::new_from(
            width,
            height,
            policy,
            simple_answers((n + 6) as u32),
            bloom_upload(n),
        ) == (Outline::<SimpleFramebufferView>::Built {
            commands: simple_upload((n + 6) as u32),
            value: simple_built((n + 6) as u32, width, height),
        }),
        SimpleFramebuffer::new_from(
            width,
            height,
            policy,
            simple_answers((n + 11) as u32),
            simple_upload((n + 6) as u32),
        ) == (Outline::<SimpleFramebufferView>::Built {
            commands: simple_upload((n + 11) as u32),
            value: simple_built((n + 11) as u32, width, height),
        }),
    ensures
        ({
            let plan = bloom_plan(width, height, samples, do_bloom, bloom_levels, policy);
            let end = part_end(books, width, height);
            let built = simple_built(books.last_name, width, height);
            &&& books.driven(plan, bloom_answers(n).subrange(0, 19), 25) == (
                end,
                Some(
                    Ok::<BloomFramebufferView, crate::render_error::RenderErrorView>(
                        bloom_built(n, width, height, samples, do_bloom, bloom_levels),
                    ),
                ),
            )
            &&& part_facts(books, end, built)
        }),
{
    let plan = bloom_plan(width, height, samples, do_bloom, bloom_levels, policy);
    let r19 = bloom_answers(n).subrange(0, 19);
    let pending = simple_upload((n + 11) as u32);
    assert forall|i: int| 0 <= i < pending.len() implies unnoticed(#[trigger] pending[i]) by {}
    assert forall|t: Seq<u32>|
        SimpleFramebuffer::new_from(width, height, policy, t, pending) is Ask implies #[trigger] plan(
            r19 + t,
        ) == (Outline::<BloomFramebufferView>::Ask {
            commands: SimpleFramebuffer::new_from(width, height, policy, t, pending)->Ask_commands,
            query: SimpleFramebuffer::new_from(width, height, policy, t, pending)->Ask_query,
        }) by {
        lemma_bloom_plan_at_out(n, width, height, samples, do_bloom, bloom_levels, policy, t);
    }
    lemma_simple_part(books, plan, r19, pending, width, height, policy, 25);
    let end = part_end(books, width, height);
    let answers = simple_answers(books.last_name);
    lemma_bloom_plan_at_out(n, width, height, samples, do_bloom, bloom_levels, policy, answers);
    let upload = simple_upload(books.last_name);
    assert(plan(r19 + answers) == Outline::<BloomFramebufferView>::Built {
        commands: upload,
        value: bloom_built(n, width, height, samples, do_bloom, bloom_levels),
    });
    lemma_unnoticed(end.state, upload);
    assert(end.ran(upload) == end);
}

} // verus!
