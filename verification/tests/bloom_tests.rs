use gl_render::command::{Colour, GlCommand, UniformName, UniformValue};
use gl_render::constants::{
    COLOR_ATTACHMENT0, COLOR_ATTACHMENT1, COLOR_BUFFER_BIT, DEPTH_TEST, DRAW_FRAMEBUFFER,
    FRAMEBUFFER_COMPLETE, NEAREST, ONE, ONE_MINUS_SRC_ALPHA, READ_FRAMEBUFFER, SRC_ALPHA,
    TEXTURE0, TEXTURE1, TEXTURE_2D, TEXTURE_2D_MULTISAMPLE,
};
use gl_render::context::{Fill, GraphicsContext};
use gl_render::framebuffer::{
    BloomFramebuffer, Completeness, IncompleteAttachmentPolicy, QuadMesh, SimpleFramebuffer,
};
use gl_render::plan::Construction;
use gl_render::shader::ShaderManager;
use gl_render::types::{IVec2, UVec2};
use gl_render::RenderError;

const BLOOM: u32 = 41;
const GENERIC: u32 = 42;

fn shaders() -> ShaderManager {
    let mut manager = ShaderManager::new();
    manager.register_shader("BLOOM".to_string(), BLOOM).unwrap();
    manager
        .register_shader("GENERIC".to_string(), GENERIC)
        .unwrap();
    manager
}

fn target(
    context: &mut GraphicsContext,
    do_bloom: bool,
    bloom_levels: i32,
) -> BloomFramebuffer {
    context
        .create_bloom(
            64,
            64,
            4,
            do_bloom,
            bloom_levels,
            IncompleteAttachmentPolicy::Fatal,
        )
        .unwrap()
}

fn darkness() -> Colour {
    Colour {
        red: 0.03f32.to_bits(),
        green: 0.06f32.to_bits(),
        blue: 0.12f32.to_bits(),
        alpha: 0.0f32.to_bits(),
    }
}

fn background() -> Colour {
    Colour {
        red: 0.15f32.to_bits(),
        green: 0.2f32.to_bits(),
        blue: 0.4f32.to_bits(),
        alpha: 1.0f32.to_bits(),
    }
}

fn draws(commands: &Vec<GlCommand>) -> usize {
    commands
        .iter()
        .filter(|c| matches!(c, GlCommand::DrawArrays { .. }))
        .count()
}

#[test]
fn bloom_target_is_built_complete_from_twenty_five_answers() {
    let mut replies = Vec::new();
    let mut asked = 0;
    let built = loop {
        let step = BloomFramebuffer::new(
            64,
            64,
            4,
            true,
            2,
            IncompleteAttachmentPolicy::Fatal,
            &replies,
        );
        match step {
            Construction::Ask { .. } => {
                let position = replies.len();
                let is_status =
                    position == 4 || position == 10 || position == 16 || position == 22;
                replies.push(if is_status {
                    FRAMEBUFFER_COMPLETE
                } else {
                    100 + position as u32
                });
                asked += 1;
            }
            Construction::Built { value, .. } => break value,
            Construction::Failed { error, .. } => panic!("failed: {}", error.message()),
        }
    };
    assert_eq!(asked, 25);
    assert_eq!(built.fbo_id(), 100);
    assert_eq!(built.texture_id(), 101);
    assert_eq!(built.bloom_texture_id(), 102);
    assert_eq!(built.depth_buffer_id(), 103);
    assert_eq!(built.ping_pong_buffer(0).fbo_id(), 107);
    assert_eq!(built.ping_pong_buffer(1).fbo_id(), 113);
    assert_eq!(built.out_buffer().fbo_id(), 119);
    assert_eq!(built.size(), IVec2::new(64, 64));
    assert_eq!(built.samples(), 4);
    assert_eq!(built.bloom_levels(), 2);
    assert!(built.do_bloom());
    assert_eq!(built.completeness(), Completeness::Complete);
}

#[test]
fn bloom_target_on_a_context_owns_four_framebuffers_and_nine_textures() {
    let mut context = GraphicsContext::new();
    let bloom = target(&mut context, true, 2);
    assert_eq!(context.live_objects(), (4, 9, 4, 4));
    let attached = context.framebuffer(bloom.fbo_id()).unwrap();
    assert_eq!(attached.colour0, bloom.texture_id());
    assert_eq!(attached.colour1, bloom.bloom_texture_id());
    assert_eq!(attached.depth_stencil, bloom.depth_buffer_id());
    let bright = context.texture(bloom.bloom_texture_id()).unwrap();
    assert_eq!((bright.width, bright.height, bright.samples), (64, 64, 4));
    assert_ne!(
        bloom.ping_pong_buffer(0).fbo_id(),
        bloom.ping_pong_buffer(1).fbo_id()
    );
    assert_ne!(
        bloom.ping_pong_buffer(0).texture_id(),
        bloom.ping_pong_buffer(1).texture_id()
    );
}

#[test]
fn bloom_construction_leaks_nothing_when_the_context_runs_out() {
    for budget in 0..21 {
        let mut context = GraphicsContext::new();
        context.set_budget(Some(budget));
        let result =
            context.create_bloom(32, 32, 2, true, 1, IncompleteAttachmentPolicy::Fatal);
        assert!(result.is_err(), "budget {}", budget);
        assert_eq!(context.live_objects(), (0, 0, 0, 0), "budget {}", budget);
    }
    let mut context = GraphicsContext::new();
    context.set_budget(Some(21));
    assert!(context
        .create_bloom(32, 32, 2, true, 1, IncompleteAttachmentPolicy::Fatal)
        .is_ok());
}

#[test]
fn clear_leaves_the_bright_output_dark_and_transparent() {
    let mut context = GraphicsContext::new();
    let bloom = target(&mut context, true, 2);
    context.run(&bloom.clear());
    assert_eq!(
        context.fill_of(bloom.texture_id()),
        Fill::Solid(background())
    );
    assert_eq!(
        context.fill_of(bloom.bloom_texture_id()),
        Fill::Solid(darkness())
    );
    assert_eq!(
        context.fill_of(bloom.depth_buffer_id()),
        Fill::Depth(1.0f32.to_bits())
    );
    assert_eq!(
        context.fill_of(bloom.out_buffer().texture_id()),
        Fill::Solid(bloom.out_buffer().clear_colour())
    );
    assert_eq!(f32::from_bits(darkness().alpha), 0.0);

    let (commands, outcome) = bloom.blit(
        UVec2::new(64, 64),
        COLOR_BUFFER_BIT,
        NEAREST,
        &ShaderManager::new(),
    );
    assert!(outcome.is_err());
    context.run(&commands);
    assert_eq!(
        context.fill_of(bloom.ping_pong_buffer(0).texture_id()),
        Fill::Solid(darkness())
    );
}

#[test]
fn clearing_the_bloom_target_twice_is_clearing_it_once() {
    let mut context = GraphicsContext::new();
    let bloom = target(&mut context, true, 2);
    let names = [
        bloom.texture_id(),
        bloom.bloom_texture_id(),
        bloom.depth_buffer_id(),
        bloom.out_buffer().texture_id(),
        bloom.out_buffer().depth_buffer_id(),
    ];
    context.run(&bloom.clear());
    let once: Vec<Fill> = names.iter().map(|n| context.fill_of(*n)).collect();
    let bound = context.draw_framebuffer();
    context.run(&bloom.clear());
    let twice: Vec<Fill> = names.iter().map(|n| context.fill_of(*n)).collect();
    assert_eq!(once, twice);
    assert_eq!(bound, context.draw_framebuffer());
}

#[test]
fn post_process_without_blur_levels_still_composes() {
    let mut context = GraphicsContext::new();
    let bloom = target(&mut context, true, 0);
    let (commands, outcome) =
        bloom.blit(UVec2::new(64, 64), COLOR_BUFFER_BIT, NEAREST, &shaders());
    assert!(outcome.is_ok());
    assert_eq!(draws(&commands), 1);
    assert!(!commands.iter().any(|c| matches!(
        c,
        GlCommand::SetUniform {
            name: UniformName::Direction,
            ..
        }
    )));
    let additive = commands
        .iter()
        .position(|c| *c == GlCommand::BlendFunc { source: ONE, destination: ONE })
        .unwrap();
    let draw = commands
        .iter()
        .position(|c| matches!(c, GlCommand::DrawArrays { .. }))
        .unwrap();
    let restored = commands
        .iter()
        .position(|c| {
            *c == GlCommand::BlendFunc {
                source: SRC_ALPHA,
                destination: ONE_MINUS_SRC_ALPHA,
            }
        })
        .unwrap();
    assert!(additive < draw && draw < restored);
    assert_eq!(
        commands[draw - 2],
        GlCommand::BindFramebuffer {
            target: DRAW_FRAMEBUFFER,
            framebuffer: bloom.out_buffer().fbo_id()
        }
    );
}

#[test]
fn blur_passes_alternate_between_the_two_targets() {
    let mut context = GraphicsContext::new();
    let levels = 3;
    let bloom = target(&mut context, true, levels);
    let (commands, outcome) =
        bloom.blit(UVec2::new(64, 64), COLOR_BUFFER_BIT, NEAREST, &shaders());
    assert!(outcome.is_ok());
    let starts: Vec<usize> = commands
        .iter()
        .enumerate()
        .filter(|(_, c)| {
            matches!(
                c,
                GlCommand::SetUniform {
                    name: UniformName::Direction,
                    ..
                }
            )
        })
        .map(|(i, _)| i)
        .collect();
    assert_eq!(starts.len(), 2 * levels as usize);
    assert_eq!(draws(&commands), 2 * levels as usize + 1);
    for (i, start) in starts.iter().enumerate() {
        let read = i % 2;
        let write = (i + 1) % 2;
        assert_ne!(read, write);
        assert_eq!(
            commands[*start],
            GlCommand::SetUniform {
                program: BLOOM,
                name: UniformName::Direction,
                value: UniformValue::Int((i % 2) as i32),
            }
        );
        assert_eq!(
            commands[start + 1],
            GlCommand::BindFramebuffer {
                target: DRAW_FRAMEBUFFER,
                framebuffer: bloom.ping_pong_buffer(write).fbo_id(),
            }
        );
        assert_eq!(commands[start + 2], GlCommand::ActiveTexture { unit: TEXTURE0 });
        assert_eq!(
            commands[start + 3],
            GlCommand::BindTexture {
                target: TEXTURE_2D,
                texture: bloom.ping_pong_buffer(read).texture_id(),
            }
        );
        assert_eq!(commands[start + 4], GlCommand::ActiveTexture { unit: TEXTURE1 });
        assert_eq!(
            commands[start + 8],
            GlCommand::BindVertexArray {
                array: match bloom.renderable() {
                    gl_render::renderable::GlRenderable::Initialised { vao, .. } => *vao,
                    _ => panic!("the quad is not initialised"),
                }
            }
        );
        assert_eq!(commands[start + 9], GlCommand::DrawArrays { count: 6 });
        if i + 1 < starts.len() {
            assert_eq!(starts[i + 1], start + 11);
        }
    }
}

#[test]
fn post_process_starts_by_resolving_both_outputs() {
    let mut context = GraphicsContext::new();
    let bloom = target(&mut context, true, 1);
    let size = UVec2::new(128, 96);
    let (commands, _) = bloom.blit(size, COLOR_BUFFER_BIT, NEAREST, &shaders());
    let resolve = |slot: u32, destination: u32| {
        vec![
            GlCommand::BindFramebuffer {
                target: READ_FRAMEBUFFER,
                framebuffer: bloom.fbo_id(),
            },
            GlCommand::ReadBuffer { source: slot },
            GlCommand::BindFramebuffer {
                target: DRAW_FRAMEBUFFER,
                framebuffer: destination,
            },
            GlCommand::BlitFramebuffer {
                source_width: 64,
                source_height: 64,
                target_width: 128,
                target_height: 96,
                mask: COLOR_BUFFER_BIT,
                filter: NEAREST,
            },
            GlCommand::BindFramebuffer {
                target: READ_FRAMEBUFFER,
                framebuffer: 0,
            },
        ]
    };
    assert_eq!(
        commands[0..5].to_vec(),
        resolve(COLOR_ATTACHMENT0, bloom.out_buffer().fbo_id())
    );
    assert_eq!(
        commands[5..10].to_vec(),
        resolve(COLOR_ATTACHMENT1, bloom.ping_pong_buffer(0).fbo_id())
    );
    assert_eq!(commands[10], GlCommand::UseProgram { program: BLOOM });
    assert_eq!(
        commands[11],
        GlCommand::SetUniform {
            program: BLOOM,
            name: UniformName::ScreenSize,
            value: UniformValue::Extent(128, 96),
        }
    );
    assert_eq!(
        commands[12],
        GlCommand::SetUniform {
            program: BLOOM,
            name: UniformName::Samples,
            value: UniformValue::Int(4),
        }
    );
    assert_eq!(
        commands[14],
        GlCommand::BindTexture {
            target: TEXTURE_2D_MULTISAMPLE,
            texture: bloom.texture_id()
        }
    );
    assert_eq!(
        commands[16],
        GlCommand::BindTexture {
            target: TEXTURE_2D_MULTISAMPLE,
            texture: bloom.bloom_texture_id()
        }
    );
    assert_eq!(commands[19], GlCommand::Disable { capability: DEPTH_TEST });
    let tail = &commands[commands.len() - 6..];
    assert_eq!(
        tail[0],
        GlCommand::BlendFunc {
            source: SRC_ALPHA,
            destination: ONE_MINUS_SRC_ALPHA
        }
    );
    assert_eq!(tail[1], GlCommand::Enable { capability: DEPTH_TEST });
    assert_eq!(
        tail[2],
        GlCommand::BindFramebuffer {
            target: DRAW_FRAMEBUFFER,
            framebuffer: 0
        }
    );
    assert_eq!(
        tail[3..].to_vec(),
        bloom.out_buffer().blit(size, COLOR_BUFFER_BIT, NEAREST)
    );
}

#[test]
fn bloom_adds_to_the_scene_and_no_bloom_leaves_it_alone() {
    let size = UVec2::new(64, 64);
    let bright = Colour {
        red: 1.0f32.to_bits(),
        green: 1.0f32.to_bits(),
        blue: 1.0f32.to_bits(),
        alpha: 1.0f32.to_bits(),
    };

    let mut plain_context = GraphicsContext::new();
    let plain = target(&mut plain_context, false, 2);
    plain_context.run(&plain.clear());
    plain_context.run(&plain.bind_draw_target());
    plain_context.run(&vec![GlCommand::ClearColour {
        draw_buffer: 1,
        colour: bright,
    }]);
    let (commands, outcome) = plain.blit(size, COLOR_BUFFER_BIT, NEAREST, &shaders());
    assert!(outcome.is_ok());
    assert_eq!(draws(&commands), 0);
    plain_context.run(&commands);
    assert_eq!(plain_context.window(), Fill::Solid(background()));
    assert_eq!(
        plain_context.fill_of(plain.out_buffer().texture_id()),
        Fill::Solid(background())
    );

    let mut context = GraphicsContext::new();
    let bloom = target(&mut context, true, 2);
    context.run(&bloom.clear());
    context.run(&bloom.bind_draw_target());
    context.run(&vec![GlCommand::ClearColour {
        draw_buffer: 1,
        colour: bright,
    }]);
    let (commands, outcome) = bloom.blit(size, COLOR_BUFFER_BIT, NEAREST, &shaders());
    assert!(outcome.is_ok());
    assert_eq!(draws(&commands), 5);
    let mut stepped = GraphicsContext::new();
    let again = target(&mut stepped, true, 2);
    stepped.run(&again.clear());
    stepped.run(&again.bind_draw_target());
    stepped.run(&vec![GlCommand::ClearColour {
        draw_buffer: 1,
        colour: bright,
    }]);
    stepped.run(&commands[0..10].to_vec());
    assert_eq!(
        stepped.fill_of(again.ping_pong_buffer(0).texture_id()),
        Fill::Solid(bright)
    );
    assert_eq!(
        stepped.fill_of(again.out_buffer().texture_id()),
        Fill::Solid(background())
    );
    context.run(&commands);
    assert_eq!(
        context.fill_of(bloom.out_buffer().texture_id()),
        Fill::Unknown
    );
    assert_eq!(context.window(), Fill::Unknown);
    assert_eq!(context.blend(), (SRC_ALPHA, ONE_MINUS_SRC_ALPHA));
    assert!(context.depth_test());
    assert_eq!(context.live_objects(), (4, 9, 4, 4));
}

#[test]
fn post_process_reports_the_first_missing_shader() {
    let mut context = GraphicsContext::new();
    let bloom = target(&mut context, true, 1);
    let size = UVec2::new(64, 64);

    let (commands, outcome) =
        bloom.blit(size, COLOR_BUFFER_BIT, NEAREST, &ShaderManager::new());
    match outcome {
        Err(RenderError::ShaderError {
            shader_name,
            shader_type,
            error,
        }) => {
            assert_eq!(shader_name, "BLOOM");
            assert_eq!(shader_type, "SHADER_PROGRAM");
            assert_eq!(error, "Shader doesn't exist!");
        }
        _ => panic!("expected a shader error"),
    }
    assert_eq!(commands.len(), 10);

    let mut only_bloom = ShaderManager::new();
    only_bloom
        .register_shader("BLOOM".to_string(), BLOOM)
        .unwrap();
    let (commands, outcome) = bloom.blit(size, COLOR_BUFFER_BIT, NEAREST, &only_bloom);
    match outcome {
        Err(error) => assert_eq!(
            error.message(),
            "[GENERIC(SHADER_PROGRAM)] Shader doesn't exist!"
        ),
        _ => panic!("expected a shader error"),
    }
    assert_eq!(draws(&commands), 2);
    context.run(&commands);
    assert!(context.depth_test());
    assert_eq!(context.blend(), (SRC_ALPHA, ONE_MINUS_SRC_ALPHA));
}

#[test]
fn resizing_the_bloom_target_resizes_every_part_and_keeps_every_name() {
    let mut context = GraphicsContext::new();
    let mut bloom = target(&mut context, true, 2);
    let names = (
        bloom.fbo_id(),
        bloom.texture_id(),
        bloom.bloom_texture_id(),
        bloom.depth_buffer_id(),
        bloom.out_buffer().fbo_id(),
    );
    for _ in 0..2 {
        context.run(&bloom.resize(320, 200));
        let size = IVec2::new(320, 200);
        assert_eq!(bloom.size(), size);
        assert_eq!(bloom.ping_pong_buffer(0).size(), size);
        assert_eq!(bloom.ping_pong_buffer(1).size(), size);
        assert_eq!(bloom.out_buffer().size(), size);
        assert_eq!(
            (
                bloom.fbo_id(),
                bloom.texture_id(),
                bloom.bloom_texture_id(),
                bloom.depth_buffer_id(),
                bloom.out_buffer().fbo_id(),
            ),
            names
        );
        assert_eq!(context.live_objects(), (4, 9, 4, 4));
        let scene = context.texture(bloom.texture_id()).unwrap();
        assert_eq!((scene.width, scene.height, scene.samples), (320, 200, 4));
        let out = context.texture(bloom.out_buffer().texture_id()).unwrap();
        assert_eq!((out.width, out.height, out.samples), (320, 200, 0));
    }
}

#[test]
fn destroying_the_bloom_target_frees_everything_it_owned() {
    let mut context = GraphicsContext::new();
    let keep = context
        .create_multisample(8, 8, 2, IncompleteAttachmentPolicy::Fatal)
        .unwrap();
    let bloom = target(&mut context, true, 2);
    assert_eq!(context.live_objects(), (5, 11, 4, 4));
    let names = [
        bloom.texture_id(),
        bloom.bloom_texture_id(),
        bloom.depth_buffer_id(),
        bloom.ping_pong_buffer(0).texture_id(),
        bloom.ping_pong_buffer(1).depth_buffer_id(),
        bloom.out_buffer().texture_id(),
    ];
    let framebuffer = bloom.fbo_id();
    context.run(&bloom.destroy());
    for name in names {
        assert!(!context.is_texture(name));
    }
    assert!(!context.is_framebuffer(framebuffer));
    assert_eq!(context.live_objects(), (1, 2, 0, 0));
    assert!(context.is_framebuffer(keep.fbo_id()));
}

#[test]
fn each_step_uploads_the_quad_that_is_named_for_it() {
    let mut context = GraphicsContext::new();
    let mut replies: Vec<u32> = Vec::new();
    let mut uploads = Vec::new();
    loop {
        let step = BloomFramebuffer::new(
            16,
            16,
            2,
            true,
            1,
            IncompleteAttachmentPolicy::Fatal,
            &replies,
        );
        let (commands, query) = match step {
            Construction::Ask { commands, query } => (commands, Some(query)),
            Construction::Built { commands, .. } => (commands, None),
            Construction::Failed { error, .. } => panic!("failed: {}", error.message()),
        };
        for command in &commands {
            if let GlCommand::BufferData { bytes, .. } = command {
                let mesh = BloomFramebuffer::quad_of_step(replies.len());
                let vertices = match mesh {
                    QuadMesh::Target => BloomFramebuffer::quad().len() * 20,
                    QuadMesh::Part => SimpleFramebuffer::quad().len() * 16,
                };
                assert_eq!(*bytes, vertices);
                uploads.push((replies.len(), mesh));
            }
        }
        context.run(&commands);
        match query {
            Some(query) => replies.push(context.answer(query)),
            None => break,
        }
    }
    assert_eq!(
        uploads,
        vec![
            (7, QuadMesh::Target),
            (13, QuadMesh::Part),
            (19, QuadMesh::Part),
            (25, QuadMesh::Part),
        ]
    );
    assert_eq!(BloomFramebuffer::quad_of_step(0), QuadMesh::Target);
    assert_eq!(BloomFramebuffer::quad_of_step(8), QuadMesh::Part);
}
