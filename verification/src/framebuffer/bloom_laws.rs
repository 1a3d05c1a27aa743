//! What the commands of the bloom target do to a graphics context.

use vstd::prelude::*;
use crate::command::{GlCommand, ONE_BITS};
use crate::constants::{
    COLOR_ATTACHMENT0, COLOR_ATTACHMENT1, DEPTH24_STENCIL8, FRAMEBUFFER_COMPLETE, ONE,
    ONE_MINUS_SRC_ALPHA, RGBA, SRC_ALPHA,
};
use crate::context::state::{
    is_delete, lemma_apply_all_concat, lemma_apply_all_keeps_objects, lemma_one_by_one,
    takes_colour, Binding, ContextState, Fill, Framebuffer, Texture,
};
use crate::framebuffer::bloom_framebuffer::{
    attach, background, darkness, delete_names, restore, storage, BloomFramebufferView,
};
use crate::framebuffer::laws::{
    deletes_of, lemma_released, lemma_releases_concat, lemma_renderable_release,
    lemma_simple_release, releases, simple_set_up,
};
use crate::framebuffer::multisample_framebuffer::sample_storage;
use crate::framebuffer::multisample_laws::lemma_sample_storage;
use crate::framebuffer::simple_framebuffer::SimpleFramebufferView;
use crate::shader::shader_manager::lookup;
use crate::types::UVec2;

verus! {

/// The commands that delete a framebuffer and three textures are an exact
/// release of the four.
pub proof fn lemma_names_release(fbo: u32, texture: u32, bloom: u32, depth: u32)
    ensures
        releases(
            delete_names(fbo, texture, bloom, depth),
            set![fbo],
            set![texture, bloom, depth],
            Set::empty(),
            Set::empty(),
        ),
{
    let commands = delete_names(fbo, texture, bloom, depth);
    assert forall|c: GlCommand| #[trigger]
        commands.contains(c) <==> deletes_of(
            c,
            set![fbo],
            set![texture, bloom, depth],
            Set::empty(),
            Set::empty(),
        ) by {
        if commands.contains(c) {
            let i = choose|i: int| 0 <= i < commands.len() && commands[i] == c;
        }
        assert(commands[0] == GlCommand::DeleteFramebuffer { framebuffer: fbo });
        assert(commands[1] == GlCommand::DeleteTexture { texture });
        assert(commands[2] == GlCommand::DeleteTexture { texture: bloom });
        assert(commands[3] == GlCommand::DeleteTexture { texture: depth });
    }
}

/// The commands that give a bloom target up are an exact release of what it
/// and its parts own.
pub proof fn lemma_bloom_release(target: BloomFramebufferView)
    ensures
        releases(
            target.release(),
            target.framebuffers(),
            target.textures(),
            target.vertex_arrays(),
            target.buffers(),
        ),
{
    let ping = target.ping_pong_buffers[0];
    let pong = target.ping_pong_buffers[1];
    let out = target.out_buffer;
    let quad = target.renderable;
    let none = Set::<u32>::empty();
    lemma_names_release(
        target.fbo_id,
        target.texture_id,
        target.bloom_texture_id,
        target.depth_buffer_id,
    );
    lemma_simple_release(ping);
    lemma_simple_release(pong);
    lemma_simple_release(out);
    lemma_renderable_release(quad);
    let c0 = target.delete_own();
    let f0 = set![target.fbo_id];
    let t0 = set![target.texture_id, target.bloom_texture_id, target.depth_buffer_id];
    lemma_releases_concat(
        c0,
        f0,
        t0,
        none,
        none,
        ping.release(),
        ping.framebuffers(),
        ping.textures(),
        ping.vertex_arrays(),
        ping.buffers(),
    );
    let c1 = c0 + ping.release();
    let f1 = f0 + ping.framebuffers();
    let t1 = t0 + ping.textures();
    let v1 = none + ping.vertex_arrays();
    let b1 = none + ping.buffers();
    lemma_releases_concat(
        c1,
        f1,
        t1,
        v1,
        b1,
        pong.release(),
        pong.framebuffers(),
        pong.textures(),
        pong.vertex_arrays(),
        pong.buffers(),
    );
    let c2 = c1 + pong.release();
    let f2 = f1 + pong.framebuffers();
    let t2 = t1 + pong.textures();
    let v2 = v1 + pong.vertex_arrays();
    let b2 = b1 + pong.buffers();
    lemma_releases_concat(
        c2,
        f2,
        t2,
        v2,
        b2,
        out.release(),
        out.framebuffers(),
        out.textures(),
        out.vertex_arrays(),
        out.buffers(),
    );
    let c3 = c2 + out.release();
    let f3 = f2 + out.framebuffers();
    let t3 = t2 + out.textures();
    let v3 = v2 + out.vertex_arrays();
    let b3 = b2 + out.buffers();
    lemma_releases_concat(
        c3,
        f3,
        t3,
        v3,
        b3,
        quad.release(),
        none,
        none,
        quad.vertex_arrays(),
        quad.buffers(),
    );
    assert(c3 + quad.release() == target.release());
    assert(f3 + none =~= target.framebuffers());
    assert(t3 + none =~= target.textures());
    assert(v3 + quad.vertex_arrays() =~= target.vertex_arrays());
    assert(b3 + quad.buffers() =~= target.buffers());
}

/// Once a bloom target is given up, nothing that it or one of its parts
/// owned is alive: no framebuffer, no texture, no vertex array and no
/// buffer. Every other object is alive if and only if it was.
pub proof fn lemma_bloom_release_frees(target: BloomFramebufferView, state: ContextState)
    ensures
        ({
            let end = state.apply_all(target.release());
            &&& forall|name: u32| #[trigger]
                end.framebuffers.contains_key(name) <==> (state.framebuffers.contains_key(name)
                    && !target.framebuffers().contains(name))
            &&& forall|name: u32| #[trigger]
                end.textures.contains_key(name) <==> (state.textures.contains_key(name)
                    && !target.textures().contains(name))
            &&& forall|name: u32| #[trigger]
                end.vertex_arrays.contains(name) <==> (state.vertex_arrays.contains(name)
                    && !target.vertex_arrays().contains(name))
            &&& forall|name: u32| #[trigger]
                end.buffers.contains(name) <==> (state.buffers.contains(name)
                    && !target.buffers().contains(name))
        }),
{
    lemma_bloom_release(target);
    lemma_released(
        state,
        target.release(),
        target.framebuffers(),
        target.textures(),
        target.vertex_arrays(),
        target.buffers(),
    );
}

/// Whether none of the commands deletes an object.
pub open spec fn quiet(commands: Seq<GlCommand>) -> bool {
    forall|i: int| 0 <= i < commands.len() ==> !is_delete(#[trigger] commands[i])
}

/// Quiet commands after quiet commands are quiet.
pub proof fn lemma_quiet_concat(first: Seq<GlCommand>, second: Seq<GlCommand>)
    requires
        quiet(first),
        quiet(second),
    ensures
        quiet(first + second),
{
    let both = first + second;
    assert forall|i: int| 0 <= i < both.len() implies !is_delete(#[trigger] both[i]) by {
        if i < first.len() {
            assert(both[i] == first[i]);
        } else {
            assert(both[i] == second[i - first.len()]);
        }
    }
}

/// No blur pass deletes an object.
pub proof fn lemma_blur_quiet(target: BloomFramebufferView, program: u32, count: nat)
    ensures
        quiet(target.blur_passes(program, count)),
    decreases count,
{
    if count > 0 {
        lemma_blur_quiet(target, program, (count - 1) as nat);
        let pass = target.blur_pass(program, (count - 1) as nat);
        assert(quiet(pass)) by {
            assert forall|i: int| 0 <= i < pass.len() implies !is_delete(#[trigger] pass[i]) by {}
        }
        lemma_quiet_concat(target.blur_passes(program, (count - 1) as nat), pass);
    }
}

/// The post-process deletes no object, with or without bloom and whether or
/// not its shaders are there.
pub proof fn lemma_post_process_quiet(
    target: BloomFramebufferView,
    target_size: UVec2,
    mask: u32,
    filter: u32,
    shaders: Map<Seq<char>, u32>,
)
    ensures
        quiet(target.blit(target_size, mask, filter, shaders).0),
{
    let scene = target.resolve(COLOR_ATTACHMENT0, target.out_buffer, target_size, mask, filter);
    let present = target.present(target_size, mask, filter);
    assert(quiet(scene));
    assert(quiet(present));
    if !target.do_bloom {
        lemma_quiet_concat(scene, present);
    } else {
        let resolved = target.resolve(
            COLOR_ATTACHMENT1,
            target.ping_pong_buffers[0],
            target_size,
            mask,
            filter,
        );
        assert(quiet(resolved));
        let bright = scene + resolved;
        lemma_quiet_concat(scene, resolved);
        match lookup(shaders, "BLOOM"@) {
            Err(error) => {},
            Ok(bloom) => {
                let used = seq![GlCommand::UseProgram { program: bloom }];
                let prepared = target.blur_setup(bloom, target_size);
                let passes = target.blur_passes(bloom, target.passes());
                let adding = seq![GlCommand::BlendFunc { source: ONE, destination: ONE }];
                assert(quiet(used));
                assert(quiet(prepared));
                assert(quiet(adding));
                lemma_blur_quiet(target, bloom, target.passes());
                lemma_quiet_concat(bright, used);
                lemma_quiet_concat(bright + used, prepared);
                lemma_quiet_concat(bright + used + prepared, passes);
                lemma_quiet_concat(bright + used + prepared + passes, adding);
                let blurred = bright + used + prepared + passes + adding;
                assert(quiet(restore()));
                match lookup(shaders, "GENERIC"@) {
                    Err(error) => {
                        lemma_quiet_concat(blurred, restore());
                    },
                    Ok(generic) => {
                        let chosen = seq![GlCommand::UseProgram { program: generic }];
                        let composite = target.composite(generic);
                        assert(quiet(chosen));
                        assert(quiet(composite));
                        lemma_quiet_concat(blurred, chosen);
                        lemma_quiet_concat(blurred + chosen, composite);
                        lemma_quiet_concat(blurred + chosen + composite, restore());
                        lemma_quiet_concat(blurred + chosen + composite + restore(), present);
                    },
                }
            },
        }
    }
}

/// A frame creates nothing and deletes nothing: after a resize, after a
/// clear and after the post-process the same objects are alive as before, so
/// that no number of frames and no number of resizes makes the count of live
/// objects grow.
pub proof fn lemma_bloom_frame_keeps_objects(
    target: BloomFramebufferView,
    state: ContextState,
    target_size: UVec2,
    mask: u32,
    filter: u32,
    shaders: Map<Seq<char>, u32>,
)
    ensures
        state.same_objects(state.apply_all(target.resize())),
        state.same_objects(state.apply_all(target.clear())),
        state.same_objects(
            state.apply_all(target.blit(target_size, mask, filter, shaders).0),
        ),
{
    assert(quiet(target.resize()));
    assert(quiet(target.clear()));
    lemma_post_process_quiet(target, target_size, mask, filter, shaders);
    lemma_apply_all_keeps_objects(state, target.resize());
    lemma_apply_all_keeps_objects(state, target.clear());
    lemma_apply_all_keeps_objects(state, target.blit(target_size, mask, filter, shaders).0);
}

/// Whether a command sets depth testing or blending.
pub open spec fn sets_mode(command: GlCommand) -> bool {
    command is Enable || command is Disable || command is BlendFunc
}

/// A command that sets no mode leaves depth testing and blending as they
/// are.
pub proof fn lemma_apply_keeps_modes(state: ContextState, command: GlCommand)
    requires
        !sets_mode(command),
    ensures
        state.apply(command).depth_test == state.depth_test,
        state.apply(command).blend == state.blend,
{
}

/// Commands that set no mode leave depth testing and blending as they are.
pub proof fn lemma_apply_all_keeps_modes(state: ContextState, commands: Seq<GlCommand>)
    requires
        forall|i: int| 0 <= i < commands.len() ==> !sets_mode(#[trigger] commands[i]),
    ensures
        state.apply_all(commands).depth_test == state.depth_test,
        state.apply_all(commands).blend == state.blend,
    decreases commands.len(),
{
    if commands.len() > 0 {
        lemma_apply_keeps_modes(state, commands[0]);
        let rest = commands.skip(1);
        assert forall|i: int| 0 <= i < rest.len() implies !sets_mode(#[trigger] rest[i]) by {
            assert(rest[i] == commands[i + 1]);
        }
        lemma_apply_all_keeps_modes(state.apply(commands[0]), rest);
    }
}

/// Presenting the resolved target leaves depth testing and blending as
/// they are.
pub proof fn lemma_present_keeps_modes(
    target: BloomFramebufferView,
    state: ContextState,
    target_size: UVec2,
    mask: u32,
    filter: u32,
)
    ensures
        state.apply_all(target.present(target_size, mask, filter)).depth_test
            == state.depth_test,
        state.apply_all(target.present(target_size, mask, filter)).blend == state.blend,
{
    let commands = target.present(target_size, mask, filter);
    assert(commands.len() == 4);
    assert(!sets_mode(commands[0]));
    assert(!sets_mode(commands[1]));
    assert(!sets_mode(commands[2]));
    assert(!sets_mode(commands[3]));
    lemma_apply_all_keeps_modes(state, commands);
}

/// Where the post-process gets as far as the blur, it leaves depth testing
/// on and blending by opacity, whether the composition could be drawn or its
/// shader was missing.
pub proof fn lemma_post_process_restores(
    target: BloomFramebufferView,
    state: ContextState,
    target_size: UVec2,
    mask: u32,
    filter: u32,
    shaders: Map<Seq<char>, u32>,
)
    requires
        target.do_bloom,
        shaders.contains_key("BLOOM"@),
    ensures
        ({
            let end = state.apply_all(target.blit(target_size, mask, filter, shaders).0);
            end.depth_test && end.blend == (SRC_ALPHA, ONE_MINUS_SRC_ALPHA)
        }),
{
    let bloom = shaders["BLOOM"@];
    let blurred = target.resolve(COLOR_ATTACHMENT0, target.out_buffer, target_size, mask, filter)
        + target.resolve(
        COLOR_ATTACHMENT1,
        target.ping_pong_buffers[0],
        target_size,
        mask,
        filter,
    ) + seq![GlCommand::UseProgram { program: bloom }] + target.blur_setup(bloom, target_size)
        + target.blur_passes(bloom, target.passes()) + seq![
        GlCommand::BlendFunc { source: ONE, destination: ONE },
    ];
    let present = target.present(target_size, mask, filter);
    match lookup(shaders, "GENERIC"@) {
        Err(error) => {
            let before = state.apply_all(blurred);
            lemma_apply_all_concat(state, blurred, restore());
            lemma_restore(before);
        },
        Ok(generic) => {
            let drawn = blurred + seq![GlCommand::UseProgram { program: generic }]
                + target.composite(generic);
            let before = state.apply_all(drawn);
            lemma_apply_all_concat(state, drawn, restore());
            lemma_apply_all_concat(state, drawn + restore(), present);
            lemma_restore(before);
            lemma_present_keeps_modes(
                target,
                before.apply_all(restore()),
                target_size,
                mask,
                filter,
            );
        },
    }
}

/// Setting the modes back turns depth testing on and sets blending by
/// opacity.
pub proof fn lemma_restore(state: ContextState)
    ensures
        state.apply_all(restore()).depth_test,
        state.apply_all(restore()).blend == (SRC_ALPHA, ONE_MINUS_SRC_ALPHA),
{
    lemma_one_by_one(state, restore());
    let s1 = state.after(restore(), 1);
    let s2 = state.after(restore(), 2);
}

/// What clearing the target's own outputs does: the target becomes the draw
/// target and its three outputs take their clear values.
pub proof fn lemma_clear_own(target: BloomFramebufferView, state: ContextState)
    ensures
        state.apply_all(target.clear().subrange(0, 5)) == (ContextState {
            draw_framebuffer: target.fbo_id,
            ..state
        }).colour_written(0, Fill::Solid(background())).colour_written(
            1,
            Fill::Solid(darkness()),
        ).depth_written(Fill::Depth(ONE_BITS)),
{
    let commands = target.clear().subrange(0, 5);
    lemma_one_by_one(state, commands);
    let s1 = state.after(commands, 1);
    let s2 = state.after(commands, 2);
    let s3 = state.after(commands, 3);
    let s4 = state.after(commands, 4);
    let s5 = state.after(commands, 5);
    assert(s2 == s1);
}

/// What clearing a single-sample target does: it becomes the draw target
/// and its two outputs take their clear values.
pub proof fn lemma_clear_simple(target: SimpleFramebufferView, state: ContextState)
    ensures
        state.apply_all(target.clear()) == (ContextState {
            draw_framebuffer: target.fbo_id,
            ..state
        }).colour_written(0, Fill::Solid(target.clear_colour)).depth_written(
            Fill::Depth(ONE_BITS),
        ),
{
    let commands = target.clear();
    lemma_one_by_one(state, commands);
    let s1 = state.after(commands, 1);
    let s2 = state.after(commands, 2);
    let s3 = state.after(commands, 3);
}

/// The state after a clear of the bloom target.
pub open spec fn cleared(target: BloomFramebufferView, state: ContextState) -> ContextState {
    let own = (ContextState { draw_framebuffer: target.fbo_id, ..state }).colour_written(
        0,
        Fill::Solid(background()),
    ).colour_written(1, Fill::Solid(darkness())).depth_written(Fill::Depth(ONE_BITS));
    (ContextState { draw_framebuffer: target.out_buffer.fbo_id, ..own }).colour_written(
        0,
        Fill::Solid(target.out_buffer.clear_colour),
    ).depth_written(Fill::Depth(ONE_BITS))
}

/// A clear of the bloom target writes the clear values of its outputs and
/// then those of the resolved target.
pub proof fn lemma_clear_state(target: BloomFramebufferView, state: ContextState)
    ensures
        state.apply_all(target.clear()) == cleared(target, state),
{
    let own = target.clear().subrange(0, 5);
    let rest = target.out_buffer.clear();
    assert(target.clear() =~= own + rest);
    lemma_apply_all_concat(state, own, rest);
    lemma_clear_own(target, state);
    lemma_clear_simple(target.out_buffer, state.apply_all(own));
}

/// Clearing the bloom target twice in a row leaves the context as clearing
/// it once does: a clear does not add up.
#[verifier::rlimit(60)]
pub proof fn lemma_bloom_clear_idempotent(target: BloomFramebufferView, state: ContextState)
    ensures
        state.apply_all(target.clear()).apply_all(target.clear()) == state.apply_all(
            target.clear(),
        ),
{
    let once = cleared(target, state);
    let twice = cleared(target, once);
    lemma_clear_state(target, state);
    lemma_clear_state(target, once);
    assert(once.framebuffers == state.framebuffers);
    assert(twice.framebuffers == state.framebuffers);
    assert(once.textures.dom() =~= state.textures.dom());
    assert(twice.textures =~= once.textures);
    assert(twice.window == once.window);
}

/// Whether a bloom target is set up in a context: its framebuffer is alive
/// with the scene texture at colour slot 0, the bright texture at colour
/// slot 1 and the depth texture at the depth and stencil slot; its three
/// single-sample targets are set up; and the bright texture is not one of
/// the textures that a clear fills besides it.
pub open spec fn bloom_set_up(target: BloomFramebufferView, state: ContextState) -> bool {
    &&& target.well_formed()
    &&& state.framebuffers.contains_key(target.fbo_id)
    &&& state.framebuffers[target.fbo_id].colour0 == target.texture_id
    &&& state.framebuffers[target.fbo_id].colour1 == target.bloom_texture_id
    &&& state.framebuffers[target.fbo_id].depth_stencil == target.depth_buffer_id
    &&& state.textures.contains_key(target.texture_id)
    &&& state.textures.contains_key(target.bloom_texture_id)
    &&& state.textures.contains_key(target.depth_buffer_id)
    &&& simple_set_up(target.ping_pong_buffers[0], state)
    &&& simple_set_up(target.ping_pong_buffers[1], state)
    &&& simple_set_up(target.out_buffer, state)
    &&& target.bloom_texture_id != target.texture_id
    &&& target.bloom_texture_id != target.depth_buffer_id
    &&& !target.out_buffer.textures().contains(target.bloom_texture_id)
    &&& !target.ping_pong_buffers[0].textures().contains(target.bloom_texture_id)
}

/// After a clear the bright output is dark and without opacity, and so is
/// what resolving it puts into the first blur target: where nothing bright
/// is drawn, nothing blooms. The resolve leaves the bright output as it is,
/// gives up the read binding and leaves the blur target bound for drawing.
pub proof fn lemma_bright_output_stays_dark(
    target: BloomFramebufferView,
    state: ContextState,
    target_size: UVec2,
    mask: u32,
    filter: u32,
)
    requires
        bloom_set_up(target, state),
        takes_colour(mask),
    ensures
        darkness().is_transparent(),
        ({
            let clear = state.apply_all(target.clear());
            let resolved = clear.apply_all(
                target.resolve(
                    COLOR_ATTACHMENT1,
                    target.ping_pong_buffers[0],
                    target_size,
                    mask,
                    filter,
                ),
            );
            &&& clear.fill_of(target.bloom_texture_id) == Fill::Solid(darkness())
            &&& resolved.fill_of(target.bloom_texture_id) == Fill::Solid(darkness())
            &&& resolved.fill_of(target.ping_pong_buffers[0].texture_id) == Fill::Solid(
                darkness(),
            )
            &&& resolved.read_framebuffer == 0
            &&& resolved.draw_framebuffer == target.ping_pong_buffers[0].fbo_id
        }),
{
    let clear = cleared(target, state);
    lemma_clear_state(target, state);
    assert(clear.fill_of(target.bloom_texture_id) == Fill::Solid(darkness()));
    assert(clear.framebuffers == state.framebuffers);
    let ping = target.ping_pong_buffers[0];
    let commands = target.resolve(COLOR_ATTACHMENT1, ping, target_size, mask, filter);
    lemma_one_by_one(clear, commands);
    let s1 = clear.after(commands, 1);
    let s2 = clear.after(commands, 2);
    let s3 = clear.after(commands, 3);
    let s4 = clear.after(commands, 4);
    let s5 = clear.after(commands, 5);
    assert(commands.len() == 5);
    assert(s2.framebuffers[target.fbo_id].read_buffer == COLOR_ATTACHMENT1);
    assert(s3.draw_framebuffer == ping.fbo_id);
    assert(s3.read_colour() == Fill::Solid(darkness()));
    assert(s4.fill_of(ping.texture_id) == Fill::Solid(darkness()));
}

/// Attaching three textures to a live framebuffer binds it for drawing and
/// reading and puts the textures at the two colour slots and at the depth
/// and stencil slot, and changes nothing else.
pub proof fn lemma_attach(state: ContextState, fbo: u32, texture: u32, bloom: u32, depth: u32)
    requires
        state.framebuffers.contains_key(fbo),
    ensures
        state.apply_all(attach(fbo, texture, bloom, depth)) == (ContextState {
            draw_framebuffer: fbo,
            read_framebuffer: fbo,
            framebuffers: state.framebuffers.insert(
                fbo,
                Framebuffer {
                    colour0: texture,
                    colour1: bloom,
                    depth_stencil: depth,
                    ..state.framebuffers[fbo]
                },
            ),
            ..state
        }),
{
    let commands = attach(fbo, texture, bloom, depth);
    lemma_one_by_one(state, commands);
    let s1 = state.after(commands, 1);
    let s2 = state.after(commands, 2);
    let s3 = state.after(commands, 3);
    let s4 = state.after(commands, 4);
    assert(s4.framebuffers =~= state.framebuffers.insert(
        fbo,
        Framebuffer {
            colour0: texture,
            colour1: bloom,
            depth_stencil: depth,
            ..state.framebuffers[fbo]
        },
    ));
}

/// The commands that set the framebuffer of a bloom target up change the
/// three textures and the framebuffer, and what is bound; every other object
/// stays as it is.
pub proof fn lemma_bloom_setup_state(
    state: ContextState,
    fbo: u32,
    texture: u32,
    bloom: u32,
    depth: u32,
    samples: i32,
    width: i32,
    height: i32,
)
    requires
        samples >= 1,
        state.framebuffers.contains_key(fbo),
        state.textures.contains_key(texture),
        state.textures.contains_key(bloom),
        state.textures.contains_key(depth),
    ensures
        ({
            let end = state.apply_all(
                storage(texture, bloom, depth, samples, width, height) + attach(
                    fbo,
                    texture,
                    bloom,
                    depth,
                ),
            );
            &&& forall|name: u32|
                name != fbo && #[trigger] state.framebuffers.contains_key(name)
                    ==> end.framebuffers.contains_key(name) && end.framebuffers[name]
                    == state.framebuffers[name]
            &&& forall|name: u32|
                name != texture && name != bloom && name != depth
                    && #[trigger] state.textures.contains_key(name)
                    ==> end.textures.contains_key(name) && end.textures[name]
                    == state.textures[name]
            &&& end.vertex_arrays == state.vertex_arrays
            &&& end.buffers == state.buffers
        }),
{
    let first = sample_storage(texture, samples, RGBA, width, height);
    let second = sample_storage(bloom, samples, RGBA, width, height);
    let third = sample_storage(depth, samples, DEPTH24_STENCIL8, width, height);
    let attached = attach(fbo, texture, bloom, depth);
    let s1 = state.apply_all(first);
    let s2 = s1.apply_all(second);
    let s3 = s2.apply_all(third);
    let s4 = s3.apply_all(attached);
    assert(s4 == state.apply_all(first + second + third + attached)) by {
        lemma_apply_all_concat(state, first, second);
        lemma_apply_all_concat(state, first + second, third);
        lemma_apply_all_concat(state, first + second + third, attached);
    }
    lemma_sample_storage(state, texture, samples, RGBA, width, height);
    lemma_sample_storage(s1, bloom, samples, RGBA, width, height);
    lemma_sample_storage(s2, depth, samples, DEPTH24_STENCIL8, width, height);
    lemma_attach(s3, fbo, texture, bloom, depth);
}

/// The commands that set the framebuffer of a bloom target up make it
/// complete, whenever width and height are positive and there is at least
/// one sample: out of a new framebuffer and three new textures they make a
/// framebuffer with storage of that size and sample count at its three
/// attachment points, which the context calls complete.
pub proof fn lemma_bloom_setup_completes(
    state: ContextState,
    fbo: u32,
    texture: u32,
    bloom: u32,
    depth: u32,
    samples: i32,
    width: i32,
    height: i32,
)
    requires
        width > 0,
        height > 0,
        samples >= 1,
        fbo != 0,
        texture != 0,
        bloom != 0,
        depth != 0,
        texture != bloom,
        texture != depth,
        bloom != depth,
        state.framebuffers.contains_key(fbo),
        state.textures.contains_key(texture),
        state.textures.contains_key(bloom),
        state.textures.contains_key(depth),
    ensures
        ({
            let end = state.apply_all(
                storage(texture, bloom, depth, samples, width, height) + attach(
                    fbo,
                    texture,
                    bloom,
                    depth,
                ),
            );
            let stored = Texture { width, height, samples, fill: Fill::Unknown };
            &&& end.status() == FRAMEBUFFER_COMPLETE
            &&& end.draw_framebuffer == fbo
            &&& end.framebuffers.contains_key(fbo)
            &&& end.framebuffers[fbo].colour0 == texture
            &&& end.framebuffers[fbo].colour1 == bloom
            &&& end.framebuffers[fbo].depth_stencil == depth
            &&& end.textures.contains_key(texture) && end.textures[texture] == stored
            &&& end.textures.contains_key(bloom) && end.textures[bloom] == stored
            &&& end.textures.contains_key(depth) && end.textures[depth] == stored
            &&& state.same_objects(end)
        }),
{
    let first = sample_storage(texture, samples, RGBA, width, height);
    let second = sample_storage(bloom, samples, RGBA, width, height);
    let third = sample_storage(depth, samples, DEPTH24_STENCIL8, width, height);
    let attached = attach(fbo, texture, bloom, depth);
    let stored = Texture { width, height, samples, fill: Fill::Unknown };
    let s1 = state.apply_all(first);
    let s2 = s1.apply_all(second);
    let s3 = s2.apply_all(third);
    let s4 = s3.apply_all(attached);
    assert(s4 == state.apply_all(first + second + third + attached)) by {
        lemma_apply_all_concat(state, first, second);
        lemma_apply_all_concat(state, first + second, third);
        lemma_apply_all_concat(state, first + second + third, attached);
    }
    let e1 = ContextState {
        bindings: state.bindings.insert(
            state.active_unit,
            Binding { multisample: texture, ..state.binding() },
        ),
        textures: state.textures.insert(texture, stored),
        ..state
    };
    assert(s1 == e1) by {
        lemma_sample_storage(state, texture, samples, RGBA, width, height);
    }
    let e2 = ContextState {
        bindings: e1.bindings.insert(e1.active_unit, Binding { multisample: bloom, ..e1.binding() }),
        textures: e1.textures.insert(bloom, stored),
        ..e1
    };
    assert(s2 == e2) by {
        lemma_sample_storage(e1, bloom, samples, RGBA, width, height);
    }
    let e3 = ContextState {
        bindings: e2.bindings.insert(e2.active_unit, Binding { multisample: depth, ..e2.binding() }),
        textures: e2.textures.insert(depth, stored),
        ..e2
    };
    assert(s3 == e3) by {
        lemma_sample_storage(e2, depth, samples, DEPTH24_STENCIL8, width, height);
    }
    let e4 = ContextState {
        draw_framebuffer: fbo,
        read_framebuffer: fbo,
        framebuffers: e3.framebuffers.insert(
            fbo,
            Framebuffer {
                colour0: texture,
                colour1: bloom,
                depth_stencil: depth,
                ..e3.framebuffers[fbo]
            },
        ),
        ..e3
    };
    assert(s4 == e4) by {
        lemma_attach(e3, fbo, texture, bloom, depth);
    }
    assert(e4.usable(texture));
    assert(e4.usable(bloom));
    assert(e4.usable(depth));
    assert(e4.samples_at(texture) == Some(samples));
    assert(e4.samples_at(bloom) == Some(samples));
    assert(e4.samples_at(depth) == Some(samples));
    assert(state.framebuffers.dom() =~= e4.framebuffers.dom());
    assert(state.textures.dom() =~= e4.textures.dom());
}

} // verus!
