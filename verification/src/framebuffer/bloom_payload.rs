//! Which quad the steps of the construction of a bloom target upload.
//!
//! The commands of a step name the vertex list of a call as their data. The
//! construction of a bloom target uploads four quads, one after another: its
//! own, of vertices in space, and one for each single-sample part, of
//! vertices on the plane. The number of answers tells which one a step
//! means.

use core::marker::PhantomData;
use vstd::prelude::*;
use crate::command::{GlCommand, Payload};
use crate::framebuffer::bloom_framebuffer::{delete_names, BloomFramebuffer};
use crate::framebuffer::simple_framebuffer::{draw_to_window, SimpleFramebuffer};
use crate::framebuffer::status::{status_verdict, IncompleteAttachmentPolicy};
use crate::renderable::gl_renderable::GlRenderable;
use crate::vertex_2d::Vertex2d;
use crate::vertex_3d::Vertex3d;

verus! {

/// One of the two quads that the construction of a bloom target uploads.
#[derive(Debug, Clone, Copy, PartialEq, Eq, Structural)]
pub enum QuadMesh {
    /// The quad of the bloom target itself: `BloomFramebuffer::quad`.
    Target,
    /// The quad of a single-sample part: `SimpleFramebuffer::quad`.
    Part,
}

impl QuadMesh {
    /// The size of the quad in a vertex buffer, in bytes: six vertices of
    /// twenty or of sixteen bytes.
    pub open spec fn bytes(self) -> usize {
        match self {
            QuadMesh::Target => 120,
            QuadMesh::Part => 96,
        }
    }
}

/// The quad that the step after `answers` answers means by its vertex list:
/// the quad of the target up to the seventh answer, with which its names are
/// complete, and the quad of a part from then on.
pub open spec fn mesh_of_step(answers: nat) -> QuadMesh {
    if answers <= 7 {
        QuadMesh::Target
    } else {
        QuadMesh::Part
    }
}

/// Whether every upload among `commands` is an upload of `bytes` bytes of
/// the vertex list.
pub open spec fn uploads_only(commands: Seq<GlCommand>, bytes: usize) -> bool {
    forall|i: int|
        0 <= i < commands.len() && (#[trigger] commands[i]) is BufferData ==> commands[i]
            == (GlCommand::BufferData {
            target: crate::constants::ARRAY_BUFFER,
            payload: Payload::Vertices,
            bytes,
        })
}

impl BloomFramebuffer {
    /// The quad that the step of `new` after `answers` answers means by its
    /// vertex list.
    pub fn quad_of_step(answers: usize) -> (mesh: QuadMesh)
        ensures
            mesh == mesh_of_step(answers as nat),
    {
        if answers <= 7 {
            QuadMesh::Target
        } else {
            QuadMesh::Part
        }
    }
}

/// Commands that upload nothing may follow: the uploads stay what they are.
proof fn lemma_uploads_then(first: Seq<GlCommand>, second: Seq<GlCommand>, bytes: usize)
    requires
        uploads_only(first, bytes),
        forall|i: int| 0 <= i < second.len() ==> !((#[trigger] second[i]) is BufferData),
    ensures
        uploads_only(first + second, bytes),
{
    let both = first + second;
    assert forall|i: int| 0 <= i < both.len() && (#[trigger] both[i]) is BufferData implies both[i]
        == (GlCommand::BufferData {
        target: crate::constants::ARRAY_BUFFER,
        payload: Payload::Vertices,
        bytes,
    }) by {
        if i < first.len() {
            assert(both[i] == first[i]);
        } else {
            assert(both[i] == second[i - first.len()]);
        }
    }
}

/// What a step of the construction of a single-sample target uploads.
/// Before its first answer the step holds the commands that came before it,
/// and nothing else. Later steps upload nothing but the quad of the target.
pub proof fn lemma_simple_uploads(
    width: i32,
    height: i32,
    policy: IncompleteAttachmentPolicy,
    t: Seq<u32>,
    pending: Seq<GlCommand>,
)
    ensures
        t.len() == 0 ==> SimpleFramebuffer::new_from(width, height, policy, t, pending).commands()
            == pending,
        t.len() > 0 ==> uploads_only(
            SimpleFramebuffer::new_from(width, height, policy, t, pending).commands(),
            96,
        ),
{
    let step = SimpleFramebuffer::new_from(width, height, policy, t, pending);
    if t.len() >= 4 && t[0] != 0 && t[1] != 0 && t[2] != 0 && status_verdict(t[3], policy) is Ok {
        let blank = GlRenderable::<Vertex2d>::Uninitialised { _phantom: PhantomData };
        let quad = blank.initialise_from(6, None, t.skip(4), draw_to_window());
        assert(uploads_only(quad.commands(), 96)) by {
            assert(blank.release() =~= Seq::<GlCommand>::empty());
        }
        if quad is Failed {
            lemma_uploads_then(
                quad.commands(),
                crate::framebuffer::simple_framebuffer::delete_names(t[0], t[1], t[2]),
                96,
            );
        }
    }
}

/// Each step of the construction of a bloom target uploads nothing but the
/// quad that `quad_of_step` names for it: every upload among its commands
/// is one of the vertex list, of the size of that quad.
pub proof fn lemma_step_uploads_its_quad(
    width: i32,
    height: i32,
    samples: i32,
    do_bloom: bool,
    bloom_levels: i32,
    policy: IncompleteAttachmentPolicy,
    r: Seq<u32>,
)
    ensures
        uploads_only(
            BloomFramebuffer::new_from(
                width,
                height,
                samples,
                do_bloom,
                bloom_levels,
                policy,
                r,
            ).commands(),
            mesh_of_step(r.len()).bytes(),
        ),
{
    let step = BloomFramebuffer::new_from(
        width,
        height,
        samples,
        do_bloom,
        bloom_levels,
        policy,
        r,
    );
    let bytes = mesh_of_step(r.len()).bytes();
    if r.len() >= 5 && r[0] != 0 && r[1] != 0 && r[2] != 0 && r[3] != 0 && status_verdict(
        r[4],
        policy,
    ) is Ok {
        let own = delete_names(r[0], r[1], r[2], r[3]);
        let blank = GlRenderable::<Vertex3d>::Uninitialised { _phantom: PhantomData };
        let quad = blank.initialise_from(6, None, r.skip(5), draw_to_window());
        assert(blank.release() =~= Seq::<GlCommand>::empty());
        if quad is Failed {
            assert(uploads_only(quad.commands(), bytes));
            lemma_uploads_then(quad.commands(), own, bytes);
        } else if quad is Built {
            assert(uploads_only(quad.commands(), 120));
            let after_quad = quad->Built_commands;
            let mesh = quad->Built_value;
            let ping = SimpleFramebuffer::new_from(width, height, policy, r.skip(7), after_quad);
            lemma_simple_uploads(width, height, policy, r.skip(7), after_quad);
            crate::framebuffer::simple_framebuffer::lemma_new_ends(
                width,
                height,
                policy,
                r.skip(7),
                after_quad,
            );
            if ping is Failed {
                lemma_uploads_then(ping.commands(), mesh.release() + own, 96);
            } else if ping is Built {
                let after_ping = ping->Built_commands;
                let first = ping->Built_value;
                let pong = SimpleFramebuffer::new_from(
                    width,
                    height,
                    policy,
                    r.skip(13),
                    after_ping,
                );
                lemma_simple_uploads(width, height, policy, r.skip(13), after_ping);
                crate::framebuffer::simple_framebuffer::lemma_new_ends(
                    width,
                    height,
                    policy,
                    r.skip(13),
                    after_ping,
                );
                if pong is Failed {
                    lemma_uploads_then(
                        pong.commands(),
                        first.release() + mesh.release() + own,
                        96,
                    );
                } else if pong is Built {
                    let after_pong = pong->Built_commands;
                    let second = pong->Built_value;
                    let out = SimpleFramebuffer::new_from(
                        width,
                        height,
                        policy,
                        r.skip(19),
                        after_pong,
                    );
                    lemma_simple_uploads(width, height, policy, r.skip(19), after_pong);
                    if out is Failed {
                        lemma_uploads_then(
                            out.commands(),
                            second.release() + first.release() + mesh.release() + own,
                            96,
                        );
                    }
                }
            }
        }
    }
}

} // verus!
