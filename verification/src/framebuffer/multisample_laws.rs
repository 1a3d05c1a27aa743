//! What the commands of the multisampled target do to a graphics context.

use vstd::prelude::*;
use crate::command::GlCommand;
use crate::constants::{DEPTH24_STENCIL8, FRAMEBUFFER_COMPLETE, RGBA};
use crate::context::state::{
    lemma_apply_all_concat, lemma_apply_all_keeps_objects, lemma_one_by_one, new_framebuffer,
    Binding, ContextState, Fill, Framebuffer, Texture,
};
use crate::framebuffer::laws::{lemma_names_release, lemma_released};
use crate::framebuffer::multisample_framebuffer::{
    attach, sample_storage, FrameBufferMultisampleView,
};

verus! {

/// Once a multisampled target is given up, neither its framebuffer nor its
/// textures are alive, and every other object is alive if and only if it
/// was.
pub proof fn lemma_multisample_release_frees(
    target: FrameBufferMultisampleView,
    state: ContextState,
)
    ensures
        ({
            let end = state.apply_all(target.release());
            &&& forall|name: u32| #[trigger]
                end.framebuffers.contains_key(name) <==> (state.framebuffers.contains_key(name)
                    && !target.framebuffers().contains(name))
            &&& forall|name: u32| #[trigger]
                end.textures.contains_key(name) <==> (state.textures.contains_key(name)
                    && !target.textures().contains(name))
            &&& end.vertex_arrays == state.vertex_arrays
            &&& end.buffers == state.buffers
        }),
{
    lemma_names_release(target.fbo_id, target.texture_id, target.depth_buffer_id);
    lemma_released(
        state,
        target.release(),
        target.framebuffers(),
        target.textures(),
        Set::empty(),
        Set::empty(),
    );
    let end = state.apply_all(target.release());
    assert(end.vertex_arrays =~= state.vertex_arrays);
    assert(end.buffers =~= state.buffers);
}

/// Resizing, clearing and copying a multisampled target create nothing and
/// delete nothing: the same objects are alive afterwards.
pub proof fn lemma_multisample_frame_keeps_objects(
    target: FrameBufferMultisampleView,
    state: ContextState,
    target_size: crate::types::UVec2,
    mask: u32,
    filter: u32,
)
    ensures
        state.same_objects(state.apply_all(target.resize())),
        state.same_objects(state.apply_all(target.clear(mask))),
        state.same_objects(state.apply_all(target.clear_with_zeros())),
        state.same_objects(state.apply_all(target.blit(target_size, mask, filter))),
{
    lemma_apply_all_keeps_objects(state, target.resize());
    lemma_apply_all_keeps_objects(state, target.clear(mask));
    lemma_apply_all_keeps_objects(state, target.clear_with_zeros());
    lemma_apply_all_keeps_objects(state, target.blit(target_size, mask, filter));
}

/// Clearing a multisampled target to black without opacity twice in a row
/// leaves the context as clearing it once does.
pub proof fn lemma_multisample_clear_with_zeros_idempotent(
    target: FrameBufferMultisampleView,
    state: ContextState,
)
    ensures
        state.apply_all(target.clear_with_zeros()).apply_all(target.clear_with_zeros())
            == state.apply_all(target.clear_with_zeros()),
{
    let commands = target.clear_with_zeros();
    let once = state.apply_all(commands);
    let twice = once.apply_all(commands);
    lemma_one_by_one(state, commands);
    lemma_one_by_one(once, commands);
    let a1 = state.after(commands, 1);
    let a2 = state.after(commands, 2);
    let a3 = state.after(commands, 3);
    let b1 = once.after(commands, 1);
    let b2 = once.after(commands, 2);
    let b3 = once.after(commands, 3);
    assert(b1 == once);
    assert(b3.textures =~= a3.textures);
}

/// Clearing the draw target by a mask twice in a row leaves the context as
/// clearing it once does.
pub proof fn lemma_clear_twice(state: ContextState, mask: u32)
    ensures
        state.apply(GlCommand::Clear { mask }).apply(GlCommand::Clear { mask }) == state.apply(
            GlCommand::Clear { mask },
        ),
{
    let once = state.apply(GlCommand::Clear { mask });
    let twice = once.apply(GlCommand::Clear { mask });
    assert(once.draw_framebuffer == state.draw_framebuffer);
    assert(once.framebuffers == state.framebuffers);
    assert(twice.framebuffers == state.framebuffers);
    assert(twice.window == once.window);
    assert(twice.textures =~= once.textures);
}

/// Clearing a multisampled target by a mask twice in a row leaves the
/// context as clearing it once does.
pub proof fn lemma_multisample_clear_idempotent(
    target: FrameBufferMultisampleView,
    state: ContextState,
    mask: u32,
)
    ensures
        state.apply_all(target.clear(mask)).apply_all(target.clear(mask)) == state.apply_all(
            target.clear(mask),
        ),
{
    let commands = target.clear(mask);
    let bound = state.apply(commands[0]);
    let once = state.apply_all(commands);
    assert(once == bound.apply(GlCommand::Clear { mask })) by {
        lemma_one_by_one(state, commands);
        let a1 = state.after(commands, 1);
        let a2 = state.after(commands, 2);
    }
    assert(once.draw_framebuffer == bound.draw_framebuffer) by {
        lemma_clear_keeps_bindings(bound, mask);
    }
    assert(once.apply(commands[0]) == once);
    assert(once.apply_all(commands) == once.apply(GlCommand::Clear { mask })) by {
        lemma_one_by_one(once, commands);
        let b1 = once.after(commands, 1);
        let b2 = once.after(commands, 2);
    }
    lemma_clear_twice(bound, mask);
}

/// Clearing by a mask leaves every binding as it is.
pub proof fn lemma_clear_keeps_bindings(state: ContextState, mask: u32)
    ensures
        state.apply(GlCommand::Clear { mask }).draw_framebuffer == state.draw_framebuffer,
        state.apply(GlCommand::Clear { mask }).read_framebuffer == state.read_framebuffer,
        state.apply(GlCommand::Clear { mask }).framebuffers == state.framebuffers,
{
}

/// Giving a live texture multisample storage makes it a texture of that
/// size and sample count whose contents are unknown, bound at the active
/// unit, and changes nothing else.
pub proof fn lemma_sample_storage(
    state: ContextState,
    texture: u32,
    samples: i32,
    internal_format: u32,
    width: i32,
    height: i32,
)
    requires
        state.textures.contains_key(texture),
        samples >= 1,
    ensures
        state.apply_all(sample_storage(texture, samples, internal_format, width, height)) == (
        ContextState {
            bindings: state.bindings.insert(
                state.active_unit,
                Binding { multisample: texture, ..state.binding() },
            ),
            textures: state.textures.insert(
                texture,
                Texture { width, height, samples, fill: Fill::Unknown },
            ),
            ..state
        }),
{
    let commands = sample_storage(texture, samples, internal_format, width, height);
    lemma_one_by_one(state, commands);
    let s1 = state.after(commands, 1);
    let s2 = state.after(commands, 2);
    let s3 = state.after(commands, 3);
    let s4 = state.after(commands, 4);
    assert(s1.binding().multisample == texture);
    assert(s4 == s2);
}

/// Attaching two textures to a live framebuffer binds it for drawing and
/// reading and puts the textures at colour slot 0 and at the depth and
/// stencil slot, and changes nothing else.
pub proof fn lemma_attach(state: ContextState, fbo: u32, texture: u32, depth: u32)
    requires
        state.framebuffers.contains_key(fbo),
    ensures
        state.apply_all(attach(fbo, texture, depth)) == (ContextState {
            draw_framebuffer: fbo,
            read_framebuffer: fbo,
            framebuffers: state.framebuffers.insert(
                fbo,
                Framebuffer { colour0: texture, depth_stencil: depth, ..state.framebuffers[fbo] },
            ),
            ..state
        }),
{
    let commands = attach(fbo, texture, depth);
    lemma_one_by_one(state, commands);
    let s1 = state.after(commands, 1);
    let s2 = state.after(commands, 2);
    let s3 = state.after(commands, 3);
    assert(s3.framebuffers =~= state.framebuffers.insert(
        fbo,
        Framebuffer { colour0: texture, depth_stencil: depth, ..state.framebuffers[fbo] },
    ));
}

/// The commands that set a multisampled framebuffer up make it complete,
/// whenever width and height are positive and there is at least one sample:
/// out of a new framebuffer and two new textures they make a framebuffer with
/// storage of that size and sample count at both attachment points, which the
/// context calls complete.
pub proof fn lemma_multisample_setup_completes(
    state: ContextState,
    fbo: u32,
    texture: u32,
    depth: u32,
    samples: i32,
    width: i32,
    height: i32,
)
    requires
        width > 0,
        height > 0,
        samples >= 1,
        fbo != 0,
        texture != 0,
        depth != 0,
        texture != depth,
        state.framebuffers.contains_key(fbo),
        state.framebuffers[fbo] == new_framebuffer(),
        state.textures.contains_key(texture),
        state.textures.contains_key(depth),
    ensures
        ({
            let end = state.apply_all(
                sample_storage(texture, samples, RGBA, width, height) + sample_storage(
                    depth,
                    samples,
                    DEPTH24_STENCIL8,
                    width,
                    height,
                ) + attach(fbo, texture, depth),
            );
            &&& end.status() == FRAMEBUFFER_COMPLETE
            &&& end.draw_framebuffer == fbo
            &&& end.framebuffers.contains_key(fbo)
            &&& end.framebuffers[fbo].colour0 == texture
            &&& end.framebuffers[fbo].colour1 == 0
            &&& end.framebuffers[fbo].depth_stencil == depth
            &&& end.textures.contains_key(texture)
            &&& end.textures.contains_key(depth)
            &&& end.textures[texture] == (Texture { width, height, samples, fill: Fill::Unknown })
            &&& end.textures[depth] == (Texture { width, height, samples, fill: Fill::Unknown })
            &&& state.same_objects(end)
        }),
{
    let coloured = sample_storage(texture, samples, RGBA, width, height);
    let deep = sample_storage(depth, samples, DEPTH24_STENCIL8, width, height);
    let attached = attach(fbo, texture, depth);
    let s1 = state.apply_all(coloured);
    let s2 = s1.apply_all(deep);
    let s3 = s2.apply_all(attached);
    assert(s3 == state.apply_all(coloured + deep + attached)) by {
        lemma_apply_all_concat(state, coloured, deep);
        lemma_apply_all_concat(state, coloured + deep, attached);
    }
    let e1 = ContextState {
        bindings: state.bindings.insert(
            state.active_unit,
            Binding { multisample: texture, ..state.binding() },
        ),
        textures: state.textures.insert(
            texture,
            Texture { width, height, samples, fill: Fill::Unknown },
        ),
        ..state
    };
    assert(s1 == e1) by {
        lemma_sample_storage(state, texture, samples, RGBA, width, height);
    }
    let e2 = ContextState {
        bindings: e1.bindings.insert(
            e1.active_unit,
            Binding { multisample: depth, ..e1.binding() },
        ),
        textures: e1.textures.insert(depth, Texture { width, height, samples, fill: Fill::Unknown }),
        ..e1
    };
    assert(s2 == e2) by {
        lemma_sample_storage(e1, depth, samples, DEPTH24_STENCIL8, width, height);
    }
    let e3 = ContextState {
        draw_framebuffer: fbo,
        read_framebuffer: fbo,
        framebuffers: e2.framebuffers.insert(
            fbo,
            Framebuffer { colour0: texture, depth_stencil: depth, ..e2.framebuffers[fbo] },
        ),
        ..e2
    };
    assert(s3 == e3) by {
        lemma_attach(e2, fbo, texture, depth);
    }
    assert(e3.usable(texture));
    assert(e3.usable(depth));
    assert(e3.samples_at(texture) == Some(samples));
    assert(e3.samples_at(depth) == Some(samples));
    assert(e3.samples_at(0) is None);
    assert(state.framebuffers.dom() =~= e3.framebuffers.dom());
    assert(state.textures.dom() =~= e3.textures.dom());
}

} // verus!
