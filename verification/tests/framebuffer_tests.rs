use gl_render::command::{Colour, GlCommand, GlQuery};
use gl_render::constants::{
    COLOR_BUFFER_BIT, DEPTH_BUFFER_BIT, DRAW_FRAMEBUFFER, FRAMEBUFFER_COMPLETE,
    FRAMEBUFFER_INCOMPLETE_ATTACHMENT, FRAMEBUFFER_INCOMPLETE_DRAW_BUFFER,
    FRAMEBUFFER_INCOMPLETE_LAYER_TARGETS, FRAMEBUFFER_INCOMPLETE_MISSING_ATTACHMENT,
    FRAMEBUFFER_INCOMPLETE_MULTISAMPLE, FRAMEBUFFER_INCOMPLETE_READ_BUFFER,
    FRAMEBUFFER_UNDEFINED, NEAREST, READ_FRAMEBUFFER,
};
use gl_render::context::{Fill, GraphicsContext};
use gl_render::framebuffer::status::check_status;
use gl_render::camera::{DirtyFlags, Refresh};
use gl_render::framebuffer::{
    Completeness, FrameBufferMultisample, Framebuffer, IncompleteAttachmentPolicy,
    SimpleFramebuffer,
};
use gl_render::shader::ShaderManager;
use gl_render::plan::Construction;
use gl_render::types::{IVec2, UVec2};
use gl_render::RenderError;

fn buffer_error(result: Result<Completeness, RenderError>) -> String {
    match result {
        Err(RenderError::BufferError { error }) => error,
        other => panic!("expected a buffer error, got {:?}", other),
    }
}

#[test]
fn complete_status_passes() {
    let verdict = check_status(FRAMEBUFFER_COMPLETE, IncompleteAttachmentPolicy::Fatal);
    assert!(matches!(verdict, Ok(Completeness::Complete)));
}

#[test]
fn every_incomplete_status_has_its_own_error() {
    let policy = IncompleteAttachmentPolicy::Fatal;
    let texts = vec![
        buffer_error(check_status(FRAMEBUFFER_UNDEFINED, policy)),
        buffer_error(check_status(FRAMEBUFFER_INCOMPLETE_ATTACHMENT, policy)),
        buffer_error(check_status(FRAMEBUFFER_INCOMPLETE_MISSING_ATTACHMENT, policy)),
        buffer_error(check_status(FRAMEBUFFER_INCOMPLETE_DRAW_BUFFER, policy)),
        buffer_error(check_status(FRAMEBUFFER_INCOMPLETE_READ_BUFFER, policy)),
        buffer_error(check_status(FRAMEBUFFER_INCOMPLETE_MULTISAMPLE, policy)),
        buffer_error(check_status(FRAMEBUFFER_INCOMPLETE_LAYER_TARGETS, policy)),
        buffer_error(check_status(12345, policy)),
    ];
    assert_eq!(texts[0], "Framebuffer undefined!");
    assert_eq!(
        texts[1],
        "Incomplete framebuffer attachment points! This is fatal on Windows."
    );
    assert_eq!(texts[2], "No images are attached to the framebuffer!");
    assert_eq!(texts[3], "Incomplete draw buffer!");
    assert_eq!(texts[4], "Incomplete read buffer!");
    assert_eq!(
        texts[5],
        "Unsupported internal formats for attached framebuffer images!"
    );
    assert_eq!(texts[6], "Multisample textures are invalid!");
    assert_eq!(texts[7], "Unknown error with framebuffer creation!");
    for i in 0..texts.len() {
        for j in 0..i {
            assert_ne!(texts[i], texts[j]);
        }
    }
}

#[test]
fn incomplete_attachment_is_tolerated_where_the_policy_says_so() {
    let verdict = check_status(
        FRAMEBUFFER_INCOMPLETE_ATTACHMENT,
        IncompleteAttachmentPolicy::Tolerated,
    );
    assert!(matches!(verdict, Ok(Completeness::IncompleteAttachment)));
}

#[test]
fn simple_framebuffer_asks_for_its_names_in_order() {
    let policy = IncompleteAttachmentPolicy::Fatal;
    let queries = vec![
        GlQuery::GenFramebuffer,
        GlQuery::GenTexture,
        GlQuery::GenTexture,
        GlQuery::CheckFramebufferStatus,
        GlQuery::GenVertexArray,
        GlQuery::GenBuffer,
    ];
    let answers = vec![7, 8, 9, FRAMEBUFFER_COMPLETE, 3, 4];
    let mut replies = Vec::new();
    for i in 0..6 {
        match SimpleFramebuffer::new(64, 32, policy, &replies) {
            Construction::Ask { query, .. } => assert_eq!(query, queries[i]),
            _ => panic!("construction ended early"),
        }
        replies.push(answers[i]);
    }
    match SimpleFramebuffer::new(64, 32, policy, &replies) {
        Construction::Built { value, .. } => {
            assert_eq!(value.fbo_id(), 7);
            assert_eq!(value.texture_id(), 8);
            assert_eq!(value.depth_buffer_id(), 9);
            assert_eq!(value.size(), IVec2::new(64, 32));
            assert_eq!(value.completeness(), Completeness::Complete);
        }
        _ => panic!("construction did not end"),
    }
}

#[test]
fn simple_framebuffer_fails_on_the_first_name_refused() {
    let policy = IncompleteAttachmentPolicy::Fatal;
    match SimpleFramebuffer::new(64, 64, policy, &vec![0]) {
        Construction::Failed { commands, error } => {
            assert!(commands.is_empty());
            assert_eq!(
                error.message(),
                "Error with OpenGL buffer object: Failed to create framebuffer!"
            );
        }
        _ => panic!("expected a failure"),
    }
    match SimpleFramebuffer::new(64, 64, policy, &vec![5, 0]) {
        Construction::Failed { commands, error } => {
            assert_eq!(commands, vec![GlCommand::DeleteFramebuffer { framebuffer: 5 }]);
            assert_eq!(
                error.message(),
                "Error with OpenGL buffer object: Failed to create texture for framebuffer!"
            );
        }
        _ => panic!("expected a failure"),
    }
    match SimpleFramebuffer::new(64, 64, policy, &vec![5, 6, 0]) {
        Construction::Failed { commands, error } => {
            assert_eq!(
                commands,
                vec![
                    GlCommand::DeleteFramebuffer { framebuffer: 5 },
                    GlCommand::DeleteTexture { texture: 6 },
                ]
            );
            assert_eq!(
                error.message(),
                "Error with OpenGL buffer object: Failed to create depth and stencil buffer for framebuffer!"
            );
        }
        _ => panic!("expected a failure"),
    }
}

#[test]
fn simple_framebuffer_releases_its_names_on_a_bad_status() {
    let policy = IncompleteAttachmentPolicy::Fatal;
    let replies = vec![5, 6, 7, FRAMEBUFFER_INCOMPLETE_MISSING_ATTACHMENT];
    match SimpleFramebuffer::new(64, 64, policy, &replies) {
        Construction::Failed { commands, error } => {
            assert_eq!(
                commands,
                vec![
                    GlCommand::DeleteFramebuffer { framebuffer: 5 },
                    GlCommand::DeleteTexture { texture: 6 },
                    GlCommand::DeleteTexture { texture: 7 },
                ]
            );
            assert!(matches!(error, RenderError::BufferError { .. }));
        }
        _ => panic!("expected a failure"),
    }
}

#[test]
fn construction_succeeds_on_a_context_for_positive_sizes() {
    let mut context = GraphicsContext::new();
    let target = context
        .create_simple(64, 48, IncompleteAttachmentPolicy::Fatal)
        .unwrap();
    assert_eq!(target.completeness(), Completeness::Complete);
    assert_eq!(target.size(), IVec2::new(64, 48));
    assert!(context.is_framebuffer(target.fbo_id()));
    assert!(context.is_texture(target.texture_id()));
    assert!(context.is_texture(target.depth_buffer_id()));
    assert_eq!(context.live_objects(), (1, 2, 1, 1));
    let colour = context.texture(target.texture_id()).unwrap();
    assert_eq!((colour.width, colour.height, colour.samples), (64, 48, 0));
    assert_eq!(context.draw_framebuffer(), 0);
}

#[test]
fn construction_fails_on_a_context_for_an_empty_size() {
    let mut context = GraphicsContext::new();
    let result = context.create_simple(0, 48, IncompleteAttachmentPolicy::Fatal);
    match result {
        Err(RenderError::BufferError { error }) => assert_eq!(
            error,
            "Incomplete framebuffer attachment points! This is fatal on Windows."
        ),
        _ => panic!("expected a buffer error"),
    }
    assert_eq!(context.live_objects(), (0, 0, 0, 0));
}

#[test]
fn construction_leaks_nothing_when_the_context_runs_out() {
    for budget in 0..6 {
        let mut context = GraphicsContext::new();
        context.set_budget(Some(budget));
        let result = context.create_simple(16, 16, IncompleteAttachmentPolicy::Fatal);
        if budget < 5 {
            assert!(result.is_err());
            assert_eq!(context.live_objects(), (0, 0, 0, 0));
        } else {
            assert!(result.is_ok());
        }
    }
}

#[test]
fn resize_then_size_gives_the_new_size_and_the_same_names() {
    let mut context = GraphicsContext::new();
    let mut target = context
        .create_simple(64, 64, IncompleteAttachmentPolicy::Fatal)
        .unwrap();
    let names = (target.fbo_id(), target.texture_id(), target.depth_buffer_id());
    let before = context.live_objects();
    for _ in 0..3 {
        let commands = target.resize(128, 96);
        context.run(&commands);
        assert_eq!(target.size(), IVec2::new(128, 96));
        assert_eq!(
            (target.fbo_id(), target.texture_id(), target.depth_buffer_id()),
            names
        );
        assert_eq!(context.live_objects(), before);
    }
    let colour = context.texture(target.texture_id()).unwrap();
    assert_eq!((colour.width, colour.height), (128, 96));
}

#[test]
fn clear_twice_is_clear_once() {
    let mut context = GraphicsContext::new();
    let mut target = context
        .create_simple(8, 8, IncompleteAttachmentPolicy::Fatal)
        .unwrap();
    let red = Colour {
        red: 1.0f32.to_bits(),
        green: 0,
        blue: 0,
        alpha: 1.0f32.to_bits(),
    };
    target.set_clear_colour(red);
    context.run(&target.clear());
    let once = (
        context.fill_of(target.texture_id()),
        context.fill_of(target.depth_buffer_id()),
        context.draw_framebuffer(),
    );
    context.run(&target.clear());
    let twice = (
        context.fill_of(target.texture_id()),
        context.fill_of(target.depth_buffer_id()),
        context.draw_framebuffer(),
    );
    assert_eq!(once, twice);
    assert_eq!(once.0, Fill::Solid(red));
    assert_eq!(once.1, Fill::Depth(1.0f32.to_bits()));
    assert_eq!(once.2, target.fbo_id());
}

#[test]
fn destroying_a_target_leaves_none_of_its_names_alive() {
    let mut context = GraphicsContext::new();
    let keep = context
        .create_simple(8, 8, IncompleteAttachmentPolicy::Fatal)
        .unwrap();
    let target = context
        .create_simple(8, 8, IncompleteAttachmentPolicy::Fatal)
        .unwrap();
    let names = (target.fbo_id(), target.texture_id(), target.depth_buffer_id());
    assert_eq!(context.live_objects(), (2, 4, 2, 2));
    context.run(&target.destroy());
    assert!(!context.is_framebuffer(names.0));
    assert!(!context.is_texture(names.1));
    assert!(!context.is_texture(names.2));
    assert_eq!(context.live_objects(), (1, 2, 1, 1));
    assert!(context.is_framebuffer(keep.fbo_id()));
}

#[test]
fn blit_copies_then_releases_the_read_binding() {
    let mut context = GraphicsContext::new();
    let target = context
        .create_simple(8, 4, IncompleteAttachmentPolicy::Fatal)
        .unwrap();
    let commands = target.blit(UVec2::new(16, 8), COLOR_BUFFER_BIT, NEAREST);
    assert_eq!(
        commands,
        vec![
            GlCommand::BindFramebuffer {
                target: READ_FRAMEBUFFER,
                framebuffer: target.fbo_id()
            },
            GlCommand::BlitFramebuffer {
                source_width: 8,
                source_height: 4,
                target_width: 16,
                target_height: 8,
                mask: COLOR_BUFFER_BIT,
                filter: NEAREST,
            },
            GlCommand::BindFramebuffer {
                target: READ_FRAMEBUFFER,
                framebuffer: 0
            },
        ]
    );
    context.run(&target.clear());
    context.run(&SimpleFramebuffer::bind_default_framebuffer());
    context.run(&commands);
    assert_eq!(context.window(), Fill::Solid(target.clear_colour()));
    assert_eq!(context.read_framebuffer(), 0);
}

#[test]
fn multisample_construction_succeeds_for_one_or_more_samples() {
    for samples in 1..5 {
        let mut context = GraphicsContext::new();
        let target = context
            .create_multisample(32, 32, samples, IncompleteAttachmentPolicy::Fatal)
            .unwrap();
        assert_eq!(target.completeness(), Completeness::Complete);
        assert_eq!(target.samples(), samples);
        let colour = context.texture(target.texture_id()).unwrap();
        assert_eq!(colour.samples, samples);
        assert_eq!(context.live_objects(), (1, 2, 0, 0));
    }
}

#[test]
fn multisample_construction_fails_without_samples() {
    let mut context = GraphicsContext::new();
    let result = context.create_multisample(32, 32, 0, IncompleteAttachmentPolicy::Fatal);
    assert!(result.is_err());
    assert_eq!(context.live_objects(), (0, 0, 0, 0));
}

#[test]
fn multisample_clear_with_zeros_is_black_without_opacity() {
    let mut context = GraphicsContext::new();
    let target = context
        .create_multisample(4, 4, 2, IncompleteAttachmentPolicy::Fatal)
        .unwrap();
    context.run(&target.clear_with_zeros());
    let black = Colour {
        red: 0.0f32.to_bits(),
        green: 0.0f32.to_bits(),
        blue: 0.0f32.to_bits(),
        alpha: 0.0f32.to_bits(),
    };
    assert_eq!(context.fill_of(target.texture_id()), Fill::Solid(black));
    assert_eq!(context.fill_of(target.depth_buffer_id()), Fill::Depth(1.0f32.to_bits()));
    assert_eq!(context.draw_framebuffer(), target.fbo_id());
    assert_eq!(
        target.clear_with_zeros()[1],
        GlCommand::ClearColour { draw_buffer: 0, colour: black }
    );
    let split = target.clear(COLOR_BUFFER_BIT | DEPTH_BUFFER_BIT);
    assert_eq!(
        split,
        vec![
            GlCommand::BindFramebuffer {
                target: DRAW_FRAMEBUFFER,
                framebuffer: target.fbo_id()
            },
            GlCommand::Clear {
                mask: COLOR_BUFFER_BIT | DEPTH_BUFFER_BIT
            },
        ]
    );
}

#[test]
fn multisample_plan_needs_four_answers() {
    let policy = IncompleteAttachmentPolicy::Tolerated;
    let replies = vec![1, 2, 3, FRAMEBUFFER_INCOMPLETE_ATTACHMENT];
    match FrameBufferMultisample::new(10, 10, 4, policy, &replies) {
        Construction::Built { value, .. } => {
            assert_eq!(value.completeness(), Completeness::IncompleteAttachment)
        }
        _ => panic!("expected a target"),
    }
}

fn frame<T: Framebuffer>(target: &mut T, context: &mut GraphicsContext) -> Vec<GlCommand> {
    context.run(&target.resize(20, 10));
    context.run(&target.bind_draw_target());
    context.run(&target.clear());
    let (commands, outcome) =
        target.blit(UVec2::new(40, 20), COLOR_BUFFER_BIT, NEAREST, &ShaderManager::new());
    assert!(outcome.is_ok());
    context.run(&T::bind_default_framebuffer());
    context.run(&commands);
    commands
}

#[test]
fn every_target_runs_a_frame_through_the_same_interface() {
    let policy = IncompleteAttachmentPolicy::Fatal;
    let mut context = GraphicsContext::new();
    let mut simple = context.create_simple(8, 8, policy).unwrap();
    let commands = frame(&mut simple, &mut context);
    assert_eq!(commands, SimpleFramebuffer::blit(&simple, UVec2::new(40, 20), COLOR_BUFFER_BIT, NEAREST));
    assert_eq!(simple.size(), IVec2::new(20, 10));
    assert_eq!(context.window(), Fill::Solid(simple.clear_colour()));

    let mut multisample = context.create_multisample(8, 8, 4, policy).unwrap();
    frame(&mut multisample, &mut context);
    assert_eq!(multisample.size(), IVec2::new(20, 10));

    let mut bloom = context.create_bloom(8, 8, 4, false, 3, policy).unwrap();
    let commands = frame(&mut bloom, &mut context);
    assert_eq!(commands.len(), 9);
    assert_eq!(bloom.size(), IVec2::new(20, 10));
    assert_eq!(context.live_objects(), (6, 13, 5, 5));
}

#[test]
fn colour_and_depth_textures_bind_at_the_unit_asked_for() {
    let mut context = GraphicsContext::new();
    let target = context.create_simple(8, 8, IncompleteAttachmentPolicy::Fatal).unwrap();
    assert_eq!(
        target.bind_colour_as_texture(3),
        vec![
            GlCommand::ActiveTexture { unit: gl_render::constants::TEXTURE0 + 3 },
            GlCommand::BindTexture {
                target: gl_render::constants::TEXTURE_2D,
                texture: target.texture_id()
            },
        ]
    );
    assert_eq!(
        target.bind_depth_as_texture(0)[1],
        GlCommand::BindTexture {
            target: gl_render::constants::TEXTURE_2D,
            texture: target.depth_buffer_id()
        }
    );
    let drawn = target.draw_this_framebuffer(9);
    assert_eq!(drawn.len(), 9);
    assert_eq!(drawn[8], GlCommand::BindVertexArray { array: 0 });
}

#[test]
fn matrices_are_due_when_something_changed() {
    let mut flags = DirtyFlags::new();
    assert!(flags.do_matrices_need_update());
    assert_eq!(
        flags.try_update_matrices(),
        Refresh { projection: true, view: true, product: true }
    );
    assert!(!flags.do_matrices_need_update());
    assert_eq!(
        flags.try_update_matrices(),
        Refresh { projection: false, view: false, product: false }
    );
    flags.set_some(false, false, false);
    assert!(!flags.do_matrices_need_update());
    flags.set_some(false, true, false);
    assert!(flags.view_matrix_dirty_flag && !flags.projection_matrix_dirty_flag);
    assert!(!flags.try_update_projection_matrix());
    assert!(flags.try_update_view_matrix());
    flags.set_aspect_ratio();
    assert_eq!(
        flags.try_update_matrices(),
        Refresh { projection: true, view: false, product: true }
    );
    flags.rotate();
    assert!(flags.try_update_view_matrix());
    assert!(!flags.try_update_view_matrix());
}

#[test]
fn multisample_textures_bind_at_the_unit_asked_for() {
    let mut context = GraphicsContext::new();
    let target = context
        .create_multisample(8, 8, 4, IncompleteAttachmentPolicy::Fatal)
        .unwrap();
    assert_eq!(
        target.bind_colour_as_texture(2),
        vec![
            GlCommand::ActiveTexture { unit: gl_render::constants::TEXTURE0 + 2 },
            GlCommand::BindTexture {
                target: gl_render::constants::TEXTURE_2D_MULTISAMPLE,
                texture: target.texture_id()
            },
        ]
    );
    assert_eq!(
        target.bind_depth_as_texture(0),
        vec![
            GlCommand::ActiveTexture { unit: gl_render::constants::TEXTURE0 },
            GlCommand::BindTexture {
                target: gl_render::constants::TEXTURE_2D_MULTISAMPLE,
                texture: target.depth_buffer_id()
            },
        ]
    );
}

#[test]
fn a_size_beyond_the_drivers_numbers_is_cut_to_32_bits() {
    let mut context = GraphicsContext::new();
    let mut target = context
        .create_simple(8, 8, IncompleteAttachmentPolicy::Fatal)
        .unwrap();
    let before = context.live_objects();
    context.run(&target.resize(u32::MAX, 0x8000_0000));
    assert_eq!(target.size(), IVec2::new(-1, i32::MIN));
    assert_eq!(context.live_objects(), before);
    context.run(&target.resize(i32::MAX as u32, 3));
    assert_eq!(target.size(), IVec2::new(i32::MAX, 3));
}
