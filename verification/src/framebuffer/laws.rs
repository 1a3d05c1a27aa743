//! What the commands of the render targets do to a graphics context.

use vstd::prelude::*;
use crate::command::{GlCommand, ONE_BITS};
use crate::constants::FRAMEBUFFER_COMPLETE;
use crate::context::state::{
    is_delete, lemma_apply_all_concat, lemma_apply_all_keeps_objects, lemma_deleted,
    lemma_one_by_one, new_framebuffer, Binding, ContextState, Fill, Framebuffer, Texture,
};
use crate::framebuffer::simple_framebuffer::{
    attach, clamp, colour_storage, delete_names, depth_storage, setup, texture_storage,
    SimpleFramebufferView,
};
use crate::renderable::gl_renderable::GlRenderable;

verus! {

/// Whether `command` deletes an object of a live set that `names` holds.
pub open spec fn deletes_of(
    command: GlCommand,
    framebuffers: Set<u32>,
    textures: Set<u32>,
    vertex_arrays: Set<u32>,
    buffers: Set<u32>,
) -> bool {
    match command {
        GlCommand::DeleteFramebuffer { framebuffer } => framebuffers.contains(framebuffer),
        GlCommand::DeleteTexture { texture } => textures.contains(texture),
        GlCommand::DeleteVertexArray { array } => vertex_arrays.contains(array),
        GlCommand::DeleteBuffer { buffer } => buffers.contains(buffer),
        _ => false,
    }
}

/// Whether `commands` are an exact release of the objects named: every
/// command deletes one of them, and each of them is deleted by a command.
pub open spec fn releases(
    commands: Seq<GlCommand>,
    framebuffers: Set<u32>,
    textures: Set<u32>,
    vertex_arrays: Set<u32>,
    buffers: Set<u32>,
) -> bool {
    forall|c: GlCommand| #[trigger]
        commands.contains(c) <==> deletes_of(c, framebuffers, textures, vertex_arrays, buffers)
}

/// One release after another releases what either releases.
pub proof fn lemma_releases_concat(
    first: Seq<GlCommand>,
    f1: Set<u32>,
    t1: Set<u32>,
    v1: Set<u32>,
    b1: Set<u32>,
    second: Seq<GlCommand>,
    f2: Set<u32>,
    t2: Set<u32>,
    v2: Set<u32>,
    b2: Set<u32>,
)
    requires
        releases(first, f1, t1, v1, b1),
        releases(second, f2, t2, v2, b2),
    ensures
        releases(first + second, f1 + f2, t1 + t2, v1 + v2, b1 + b2),
{
    let both = first + second;
    assert forall|c: GlCommand| #[trigger]
        both.contains(c) <==> deletes_of(c, f1 + f2, t1 + t2, v1 + v2, b1 + b2) by {
        if both.contains(c) {
            let i = choose|i: int| 0 <= i < both.len() && both[i] == c;
            if i < first.len() {
                assert(first[i] == c);
                assert(first.contains(c));
            } else {
                assert(second[i - first.len()] == c);
                assert(second.contains(c));
            }
        }
        if first.contains(c) {
            let i = choose|i: int| 0 <= i < first.len() && first[i] == c;
            assert(both[i] == c);
        }
        if second.contains(c) {
            let i = choose|i: int| 0 <= i < second.len() && second[i] == c;
            assert(both[i + first.len()] == c);
        }
    }
}

/// After an exact release of some objects none of them is alive, and every
/// other object is alive if and only if it was.
pub proof fn lemma_released(
    state: ContextState,
    commands: Seq<GlCommand>,
    framebuffers: Set<u32>,
    textures: Set<u32>,
    vertex_arrays: Set<u32>,
    buffers: Set<u32>,
)
    requires
        releases(commands, framebuffers, textures, vertex_arrays, buffers),
    ensures
        forall|name: u32| #[trigger]
            state.apply_all(commands).framebuffers.contains_key(name) <==> (
            state.framebuffers.contains_key(name) && !framebuffers.contains(name)),
        forall|name: u32| #[trigger]
            state.apply_all(commands).textures.contains_key(name) <==> (
            state.textures.contains_key(name) && !textures.contains(name)),
        forall|name: u32| #[trigger]
            state.apply_all(commands).vertex_arrays.contains(name) <==> (
            state.vertex_arrays.contains(name) && !vertex_arrays.contains(name)),
        forall|name: u32| #[trigger]
            state.apply_all(commands).buffers.contains(name) <==> (state.buffers.contains(name)
                && !buffers.contains(name)),
{
    assert forall|i: int| 0 <= i < commands.len() implies is_delete(#[trigger] commands[i]) by {
        assert(commands.contains(commands[i]));
    }
    lemma_deleted(state, commands);
    let end = state.apply_all(commands);
    assert forall|name: u32| #[trigger]
        end.framebuffers.contains_key(name) <==> (state.framebuffers.contains_key(name)
            && !framebuffers.contains(name)) by {
        let c = GlCommand::DeleteFramebuffer { framebuffer: name };
        assert(commands.contains(c) <==> deletes_of(
            c,
            framebuffers,
            textures,
            vertex_arrays,
            buffers,
        ));
    }
    assert forall|name: u32| #[trigger]
        end.textures.contains_key(name) <==> (state.textures.contains_key(name)
            && !textures.contains(name)) by {
        let c = GlCommand::DeleteTexture { texture: name };
        assert(commands.contains(c) <==> deletes_of(
            c,
            framebuffers,
            textures,
            vertex_arrays,
            buffers,
        ));
    }
    assert forall|name: u32| #[trigger]
        end.vertex_arrays.contains(name) <==> (state.vertex_arrays.contains(name)
            && !vertex_arrays.contains(name)) by {
        let c = GlCommand::DeleteVertexArray { array: name };
        assert(commands.contains(c) <==> deletes_of(
            c,
            framebuffers,
            textures,
            vertex_arrays,
            buffers,
        ));
    }
    assert forall|name: u32| #[trigger]
        end.buffers.contains(name) <==> (state.buffers.contains(name) && !buffers.contains(name)) by {
        let c = GlCommand::DeleteBuffer { buffer: name };
        assert(commands.contains(c) <==> deletes_of(
            c,
            framebuffers,
            textures,
            vertex_arrays,
            buffers,
        ));
    }
}

/// The commands that give a renderable up are an exact release of its
/// vertex array and its buffers.
pub proof fn lemma_renderable_release<T: crate::vertex::Vertex>(renderable: GlRenderable<T>)
    ensures
        releases(
            renderable.release(),
            Set::empty(),
            Set::empty(),
            renderable.vertex_arrays(),
            renderable.buffers(),
        ),
{
    let commands = renderable.release();
    assert forall|c: GlCommand| #[trigger]
        commands.contains(c) <==> deletes_of(
            c,
            Set::empty(),
            Set::empty(),
            renderable.vertex_arrays(),
            renderable.buffers(),
        ) by {
        if commands.contains(c) {
            let i = choose|i: int| 0 <= i < commands.len() && commands[i] == c;
        }
        match renderable {
            GlRenderable::Initialised { vao, vbo, .. } => {
                assert(commands[0] == GlCommand::DeleteVertexArray { array: vao });
                assert(commands[1] == GlCommand::DeleteBuffer { buffer: vbo });
            },
            GlRenderable::InitialisedWithIndexing { vao, vbo, ibo, .. } => {
                assert(commands[0] == GlCommand::DeleteVertexArray { array: vao });
                assert(commands[1] == GlCommand::DeleteBuffer { buffer: vbo });
                assert(commands[2] == GlCommand::DeleteBuffer { buffer: ibo });
            },
            GlRenderable::Uninitialised { .. } => {},
        }
    }
}

/// The commands that delete a framebuffer and two textures are an exact
/// release of the three.
pub proof fn lemma_names_release(fbo: u32, texture: u32, depth: u32)
    ensures
        releases(
            delete_names(fbo, texture, depth),
            set![fbo],
            set![texture, depth],
            Set::empty(),
            Set::empty(),
        ),
{
    let commands = delete_names(fbo, texture, depth);
    assert forall|c: GlCommand| #[trigger]
        commands.contains(c) <==> deletes_of(
            c,
            set![fbo],
            set![texture, depth],
            Set::empty(),
            Set::empty(),
        ) by {
        if commands.contains(c) {
            let i = choose|i: int| 0 <= i < commands.len() && commands[i] == c;
        }
        assert(commands[0] == GlCommand::DeleteFramebuffer { framebuffer: fbo });
        assert(commands[1] == GlCommand::DeleteTexture { texture });
        assert(commands[2] == GlCommand::DeleteTexture { texture: depth });
    }
}

/// The commands that give a single-sample target up are an exact release of
/// what it owns.
pub proof fn lemma_simple_release(target: SimpleFramebufferView)
    ensures
        releases(
            target.release(),
            target.framebuffers(),
            target.textures(),
            target.vertex_arrays(),
            target.buffers(),
        ),
{
    lemma_names_release(target.fbo_id, target.texture_id, target.depth_buffer_id);
    lemma_renderable_release(target.renderable);
    lemma_releases_concat(
        delete_names(target.fbo_id, target.texture_id, target.depth_buffer_id),
        set![target.fbo_id],
        set![target.texture_id, target.depth_buffer_id],
        Set::empty(),
        Set::empty(),
        target.renderable.release(),
        Set::empty(),
        Set::empty(),
        target.renderable.vertex_arrays(),
        target.renderable.buffers(),
    );
    assert(set![target.fbo_id] + Set::<u32>::empty() =~= target.framebuffers());
    assert(set![target.texture_id, target.depth_buffer_id] + Set::<u32>::empty()
        =~= target.textures());
    assert(Set::<u32>::empty() + target.renderable.vertex_arrays() =~= target.vertex_arrays());
    assert(Set::<u32>::empty() + target.renderable.buffers() =~= target.buffers());
}

/// Once a single-sample target is given up, nothing that it owned is alive:
/// not its framebuffer, not its textures, not the vertex array and the
/// buffer of its quad. Every other object is alive if and only if it was.
pub proof fn lemma_simple_release_frees(target: SimpleFramebufferView, state: ContextState)
    ensures
        ({
            let end = state.apply_all(target.release());
            &&& forall|name: u32| #[trigger]
                end.framebuffers.contains_key(name) <==> (state.framebuffers.contains_key(name)
                    && !target.framebuffers().contains(name))
            &&& forall|name: u32| #[trigger]
                end.textures.contains_key(name) <==> (state.textures.contains_key(name)
                    && !target.textures().contains(name))
            &&& forall|name: u32| #[trigger]
                end.vertex_arrays.contains(name) <==> (state.vertex_arrays.contains(name)
                    && !target.vertex_arrays().contains(name))
            &&& forall|name: u32| #[trigger]
                end.buffers.contains(name) <==> (state.buffers.contains(name)
                    && !target.buffers().contains(name))
        }),
{
    lemma_simple_release(target);
    lemma_released(
        state,
        target.release(),
        target.framebuffers(),
        target.textures(),
        target.vertex_arrays(),
        target.buffers(),
    );
}

/// Resizing a single-sample target, once or again and again, creates
/// nothing and deletes nothing: the same objects are alive afterwards.
pub proof fn lemma_simple_resize_keeps_objects(target: SimpleFramebufferView, state: ContextState)
    ensures
        state.same_objects(state.apply_all(target.resize())),
{
    lemma_apply_all_keeps_objects(state, target.resize());
}

/// Clearing a single-sample target and presenting it create nothing and
/// delete nothing.
pub proof fn lemma_simple_frame_keeps_objects(
    target: SimpleFramebufferView,
    state: ContextState,
    target_size: crate::types::UVec2,
    mask: u32,
    filter: u32,
)
    ensures
        state.same_objects(state.apply_all(target.clear())),
        state.same_objects(state.apply_all(target.blit(target_size, mask, filter))),
{
    lemma_apply_all_keeps_objects(state, target.clear());
    lemma_apply_all_keeps_objects(state, target.blit(target_size, mask, filter));
}

/// Clearing a single-sample target twice in a row leaves the context as
/// clearing it once does.
pub proof fn lemma_simple_clear_idempotent(target: SimpleFramebufferView, state: ContextState)
    ensures
        state.apply_all(target.clear()).apply_all(target.clear()) == state.apply_all(
            target.clear(),
        ),
{
    let commands = target.clear();
    let once = state.apply_all(commands);
    let twice = once.apply_all(commands);
    lemma_one_by_one(state, commands);
    lemma_one_by_one(once, commands);
    assert(commands.len() == 3);
    let a1 = state.after(commands, 1);
    let a2 = state.after(commands, 2);
    let a3 = state.after(commands, 3);
    assert(a3 == once);
    let b1 = once.after(commands, 1);
    let b2 = once.after(commands, 2);
    let b3 = once.after(commands, 3);
    assert(b3 == twice);
    assert(b1 == once);
    assert(b3.textures =~= a3.textures);
    assert(b3.framebuffers =~= a3.framebuffers);
}

/// After a clear, the colour texture of a single-sample target holds the
/// clear colour throughout and its depth texture the far plane, where the
/// target is set up in the context.
pub proof fn lemma_simple_clear_fills(target: SimpleFramebufferView, state: ContextState)
    requires
        simple_set_up(target, state),
    ensures
        ({
            let end = state.apply_all(target.clear());
            &&& end.fill_of(target.texture_id) == Fill::Solid(target.clear_colour)
            &&& end.fill_of(target.depth_buffer_id) == Fill::Depth(ONE_BITS)
            &&& simple_set_up(target, end)
        }),
{
    let commands = target.clear();
    lemma_one_by_one(state, commands);
    let a1 = state.after(commands, 1);
    let a2 = state.after(commands, 2);
    let a3 = state.after(commands, 3);
}

/// Whether a single-sample target is set up in a context: its framebuffer is
/// alive with the colour texture at colour slot 0 and the depth texture at
/// the depth and stencil slot, and the two textures are two live textures.
pub open spec fn simple_set_up(target: SimpleFramebufferView, state: ContextState) -> bool {
    &&& target.fbo_id != 0
    &&& target.texture_id != target.depth_buffer_id
    &&& state.framebuffers.contains_key(target.fbo_id)
    &&& state.framebuffers[target.fbo_id].colour0 == target.texture_id
    &&& state.framebuffers[target.fbo_id].colour1 == 0
    &&& state.framebuffers[target.fbo_id].depth_stencil == target.depth_buffer_id
    &&& state.textures.contains_key(target.texture_id)
    &&& state.textures.contains_key(target.depth_buffer_id)
}

/// What giving storage to a texture does in any state: the texture is bound
/// at the active unit, and if it is alive it has that size and unknown
/// contents.
pub proof fn lemma_texture_storage_anywhere(
    state: ContextState,
    texture: u32,
    internal_format: u32,
    width: i32,
    height: i32,
    format: u32,
    data_type: u32,
)
    ensures
        state.apply_all(
            texture_storage(texture, internal_format, width, height, format, data_type),
        ) == (ContextState {
            bindings: state.bindings.insert(
                state.active_unit,
                Binding { flat: texture, ..state.binding() },
            ),
            ..state.stored(texture, width, height, 0)
        }),
{
    let commands = texture_storage(texture, internal_format, width, height, format, data_type);
    lemma_one_by_one(state, commands);
    let s1 = state.after(commands, 1);
    let s2 = state.after(commands, 2);
    let s3 = state.after(commands, 3);
    let s4 = state.after(commands, 4);
    assert(s1.binding().flat == texture);
    assert(s4 == s2);
}

/// Resizing a single-sample target to the size that it has leaves the
/// context as the resize that gave it the size did: a resize can be
/// repeated every frame.
pub proof fn lemma_simple_resize_idempotent(target: SimpleFramebufferView, state: ContextState)
    ensures
        state.apply_all(target.resize()).apply_all(target.resize()) == state.apply_all(
            target.resize(),
        ),
{
    let width = target.size.x;
    let height = target.size.y;
    let first = colour_storage(target.texture_id, width, height);
    let second = depth_storage(target.depth_buffer_id, width, height);
    let a1 = state.apply_all(first);
    let a2 = a1.apply_all(second);
    let b1 = a2.apply_all(first);
    let b2 = b1.apply_all(second);
    lemma_apply_all_concat(state, first, second);
    lemma_apply_all_concat(a2, first, second);
    lemma_texture_storage_anywhere(
        state,
        target.texture_id,
        crate::constants::RGBA,
        width,
        height,
        crate::constants::RGBA,
        crate::constants::UNSIGNED_BYTE,
    );
    lemma_texture_storage_anywhere(
        a1,
        target.depth_buffer_id,
        crate::constants::DEPTH24_STENCIL8,
        width,
        height,
        crate::constants::DEPTH_STENCIL,
        crate::constants::UNSIGNED_INT_24_8,
    );
    lemma_texture_storage_anywhere(
        a2,
        target.texture_id,
        crate::constants::RGBA,
        width,
        height,
        crate::constants::RGBA,
        crate::constants::UNSIGNED_BYTE,
    );
    lemma_texture_storage_anywhere(
        b1,
        target.depth_buffer_id,
        crate::constants::DEPTH24_STENCIL8,
        width,
        height,
        crate::constants::DEPTH_STENCIL,
        crate::constants::UNSIGNED_INT_24_8,
    );
    assert(b2.textures =~= a2.textures);
    assert(b2.bindings =~= a2.bindings);
}

/// Giving a live texture storage makes it a texture of that size whose
/// contents are unknown, bound at the active unit, and changes nothing else.
pub proof fn lemma_texture_storage(
    state: ContextState,
    texture: u32,
    internal_format: u32,
    width: i32,
    height: i32,
    format: u32,
    data_type: u32,
)
    requires
        state.textures.contains_key(texture),
    ensures
        state.apply_all(
            texture_storage(texture, internal_format, width, height, format, data_type),
        ) == (ContextState {
            bindings: state.bindings.insert(
                state.active_unit,
                Binding { flat: texture, ..state.binding() },
            ),
            textures: state.textures.insert(
                texture,
                Texture { width, height, samples: 0, fill: Fill::Unknown },
            ),
            ..state
        }),
{
    let commands = texture_storage(texture, internal_format, width, height, format, data_type);
    lemma_one_by_one(state, commands);
    let s1 = state.after(commands, 1);
    let s2 = state.after(commands, 2);
    let s3 = state.after(commands, 3);
    let s4 = state.after(commands, 4);
    assert(s1.binding().flat == texture);
    assert(s4 == s2);
}

/// Attaching two textures to a live framebuffer binds it for drawing and
/// reading and puts the textures at colour slot 0 and at the depth and
/// stencil slot, and changes nothing else.
pub proof fn lemma_attach(state: ContextState, fbo: u32, texture: u32, depth: u32)
    requires
        state.framebuffers.contains_key(fbo),
    ensures
        state.apply_all(attach(fbo, texture, depth)) == (ContextState {
            draw_framebuffer: fbo,
            read_framebuffer: fbo,
            framebuffers: state.framebuffers.insert(
                fbo,
                Framebuffer { colour0: texture, depth_stencil: depth, ..state.framebuffers[fbo] },
            ),
            ..state
        }),
{
    let commands = attach(fbo, texture, depth);
    lemma_one_by_one(state, commands);
    let s1 = state.after(commands, 1);
    let s2 = state.after(commands, 2);
    let s3 = state.after(commands, 3);
    assert(s3.framebuffers =~= state.framebuffers.insert(
        fbo,
        Framebuffer { colour0: texture, depth_stencil: depth, ..state.framebuffers[fbo] },
    ));
}

/// Clamping the bound texture changes nothing that the model keeps.
pub proof fn lemma_clamp(state: ContextState)
    ensures
        state.apply_all(clamp()) == state,
{
    lemma_one_by_one(state, clamp());
    assert(state.after(clamp(), 1) == state);
    assert(state.after(clamp(), 2) == state);
}

/// The state in which the commands that set a single-sample framebuffer up
/// leave a context where the framebuffer and the two textures are alive.
pub open spec fn simple_setup_state(
    state: ContextState,
    fbo: u32,
    texture: u32,
    depth: u32,
    width: i32,
    height: i32,
) -> ContextState {
    ContextState {
        bindings: state.bindings.insert(
            state.active_unit,
            Binding { flat: depth, ..state.binding() },
        ),
        textures: state.textures.insert(
            texture,
            Texture { width, height, samples: 0, fill: Fill::Unknown },
        ).insert(depth, Texture { width, height, samples: 0, fill: Fill::Unknown }),
        draw_framebuffer: fbo,
        read_framebuffer: fbo,
        framebuffers: state.framebuffers.insert(
            fbo,
            Framebuffer { colour0: texture, depth_stencil: depth, ..state.framebuffers[fbo] },
        ),
        ..state
    }
}

/// The commands that set a single-sample framebuffer up give both textures
/// storage of the size asked for, attach them and leave the framebuffer
/// bound, and change nothing else.
pub proof fn lemma_simple_setup_state(
    state: ContextState,
    fbo: u32,
    texture: u32,
    depth: u32,
    width: i32,
    height: i32,
)
    requires
        state.framebuffers.contains_key(fbo),
        state.textures.contains_key(texture),
        state.textures.contains_key(depth),
    ensures
        state.apply_all(setup(fbo, texture, depth, width, height)) == simple_setup_state(
            state,
            fbo,
            texture,
            depth,
            width,
            height,
        ),
{
    let coloured = colour_storage(texture, width, height);
    let deep = depth_storage(depth, width, height);
    let attached = attach(fbo, texture, depth);
    let s1 = state.apply_all(coloured);
    let s2 = s1.apply_all(clamp());
    let s3 = s2.apply_all(deep);
    let s4 = s3.apply_all(attached);
    assert(s4 == state.apply_all(setup(fbo, texture, depth, width, height))) by {
        lemma_apply_all_concat(state, coloured, clamp());
        lemma_apply_all_concat(state, coloured + clamp(), deep);
        lemma_apply_all_concat(state, coloured + clamp() + deep, attached);
    }
    let e1 = ContextState {
        bindings: state.bindings.insert(
            state.active_unit,
            Binding { flat: texture, ..state.binding() },
        ),
        textures: state.textures.insert(
            texture,
            Texture { width, height, samples: 0, fill: Fill::Unknown },
        ),
        ..state
    };
    assert(s1 == e1) by {
        lemma_texture_storage(
            state,
            texture,
            crate::constants::RGBA,
            width,
            height,
            crate::constants::RGBA,
            crate::constants::UNSIGNED_BYTE,
        );
    }
    assert(s2 == s1) by {
        lemma_clamp(s1);
    }
    let e3 = ContextState {
        bindings: e1.bindings.insert(e1.active_unit, Binding { flat: depth, ..e1.binding() }),
        textures: e1.textures.insert(
            depth,
            Texture { width, height, samples: 0, fill: Fill::Unknown },
        ),
        ..e1
    };
    assert(s3 == e3) by {
        lemma_texture_storage(
            e1,
            depth,
            crate::constants::DEPTH24_STENCIL8,
            width,
            height,
            crate::constants::DEPTH_STENCIL,
            crate::constants::UNSIGNED_INT_24_8,
        );
    }
    let e4 = ContextState {
        draw_framebuffer: fbo,
        read_framebuffer: fbo,
        framebuffers: e3.framebuffers.insert(
            fbo,
            Framebuffer { colour0: texture, depth_stencil: depth, ..e3.framebuffers[fbo] },
        ),
        ..e3
    };
    assert(s4 == e4) by {
        lemma_attach(e3, fbo, texture, depth);
    }
    let goal = simple_setup_state(state, fbo, texture, depth, width, height);
    assert(e4.bindings =~= goal.bindings);
    assert(e4 == goal);
}

/// The commands that set a single-sample framebuffer up make it complete,
/// whenever width and height are positive: out of a new framebuffer and two
/// new textures they make a framebuffer with storage of that size at both
/// attachment points, which the context calls complete.
pub proof fn lemma_simple_setup_completes(
    state: ContextState,
    fbo: u32,
    texture: u32,
    depth: u32,
    width: i32,
    height: i32,
)
    requires
        width > 0,
        height > 0,
        fbo != 0,
        texture != 0,
        depth != 0,
        texture != depth,
        state.framebuffers.contains_key(fbo),
        state.framebuffers[fbo] == new_framebuffer(),
        state.textures.contains_key(texture),
        state.textures.contains_key(depth),
    ensures
        ({
            let end = state.apply_all(setup(fbo, texture, depth, width, height));
            &&& end.status() == FRAMEBUFFER_COMPLETE
            &&& end.draw_framebuffer == fbo
            &&& end.framebuffers.contains_key(fbo)
            &&& end.framebuffers[fbo].colour0 == texture
            &&& end.framebuffers[fbo].colour1 == 0
            &&& end.framebuffers[fbo].depth_stencil == depth
            &&& end.textures.contains_key(texture)
            &&& end.textures.contains_key(depth)
            &&& end.textures[texture].width == width
            &&& end.textures[texture].height == height
            &&& end.textures[depth].width == width
            &&& end.textures[depth].height == height
            &&& state.same_objects(end)
        }),
{
    lemma_simple_setup_state(state, fbo, texture, depth, width, height);
    let end = simple_setup_state(state, fbo, texture, depth, width, height);
    assert(end.usable(texture));
    assert(end.usable(depth));
    assert(end.samples_at(texture) == Some(0i32));
    assert(end.samples_at(depth) == Some(0i32));
    assert(end.samples_at(0) is None);
    assert(state.framebuffers.dom() =~= end.framebuffers.dom());
    assert(state.textures.dom() =~= end.textures.dom());
}

} // verus!
