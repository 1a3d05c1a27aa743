use gl_render::command::{int_text, GlCommand, UniformName, UniformValue};
use gl_render::shader::shader_program::dispatch;
use gl_render::shader::{NullableShaderProgram, ShaderComponent, ShaderManager, ShaderProgram};
use gl_render::RenderError;

#[test]
fn bind_test() {
    let mut shader_program = NullableShaderProgram::new(Vec::new(), false);

    shader_program.bind();

    assert_eq!(shader_program.is_bound(), true);
}

#[test]
fn set_uniform_test() {
    let value = 1;

    let mut shader_program = NullableShaderProgram::new(Vec::new(), false);

    shader_program.set_uniform("test".to_string(), UniformValue::Int(value));

    assert_eq!(shader_program.uniform("test").unwrap(), value.to_string());
}

#[test]
fn uniform_values_are_kept_as_text() {
    let mut program = NullableShaderProgram::new(
        vec![("old".to_string(), "kept".to_string())],
        true,
    );
    assert!(program.is_bound());
    assert_eq!(program.uniform("old").unwrap(), "kept");
    assert_eq!(program.uniform("missing"), None);
    program.set_uniform("samples".to_string(), UniformValue::Int(-17));
    program.set_uniform("size".to_string(), UniformValue::Extent(640, 480));
    program.set_uniform("cell".to_string(), UniformValue::IVec2(-3, 0));
    program.set_uniform("samples".to_string(), UniformValue::Int(i32::MIN));
    assert_eq!(program.uniform("samples").unwrap(), "-2147483648");
    assert_eq!(program.uniform("size").unwrap(), "(640, 480)");
    assert_eq!(program.uniform("cell").unwrap(), "(-3, 0)");
}

#[test]
fn integers_print_in_decimal() {
    for value in [0i64, 7, 10, 99, 100, 1234567890, -1, -10, i64::MAX, i64::MIN] {
        assert_eq!(int_text(value), value.to_string());
    }
}

#[test]
fn uniform_names_are_those_of_the_shader_sources() {
    assert_eq!(UniformName::ScreenSize.as_str(), "screen_size");
    assert_eq!(UniformName::Samples.as_str(), "samples");
    assert_eq!(UniformName::Direction.as_str(), "direction");
    assert_eq!(UniformName::ColourTexture.as_str(), "colour_texture");
    assert_eq!(UniformName::BloomTexture.as_str(), "bloom_texture");
    assert_eq!(UniformName::FramebufferTexture.as_str(), "framebuffer_texture");
    assert_eq!(UniformName::DepthBufferTexture.as_str(), "depth_buffer_texture");
}

#[test]
fn commands_reach_the_program_they_name() {
    let mut program = NullableShaderProgram::new(Vec::new(), false);
    assert!(!dispatch(&mut program, 5, &GlCommand::UseProgram { program: 6 }));
    assert!(!program.is_bound());
    assert!(dispatch(&mut program, 5, &GlCommand::UseProgram { program: 5 }));
    assert!(program.is_bound());
    let set = GlCommand::SetUniform {
        program: 5,
        name: UniformName::Direction,
        value: UniformValue::Int(1),
    };
    assert!(dispatch(&mut program, 5, &set));
    assert_eq!(program.uniform("direction").unwrap(), "1");
    assert!(!dispatch(&mut program, 5, &GlCommand::DrawArrays { count: 6 }));
}

#[test]
fn shader_manager_registers_binds_and_reports() {
    let mut manager = ShaderManager::new();
    assert_eq!(manager.register_shader("BLOOM".to_string(), 3).unwrap(), 3);
    match manager.register_shader("BLOOM".to_string(), 4) {
        Err(RenderError::ShaderError { shader_name, shader_type, error }) => {
            assert_eq!(shader_name, "BLOOM");
            assert_eq!(shader_type, "SHADER_PROGRAM");
            assert_eq!(error, "Shader already exists in shader manager!");
        }
        _ => panic!("expected a shader error"),
    }
    assert_eq!(manager.get_shader("BLOOM".to_string()).unwrap(), 4);
    let mut commands = vec![GlCommand::DrawArrays { count: 3 }];
    assert_eq!(manager.bind("BLOOM".to_string(), &mut commands).unwrap(), 4);
    assert_eq!(
        commands,
        vec![GlCommand::DrawArrays { count: 3 }, GlCommand::UseProgram { program: 4 }]
    );
    match manager.bind("GENERIC".to_string(), &mut commands) {
        Err(error) => assert_eq!(
            error.message(),
            "[GENERIC(SHADER_PROGRAM)] Shader doesn't exist!"
        ),
        Ok(_) => panic!("expected a shader error"),
    }
    assert_eq!(commands.len(), 2);
}

#[test]
fn shader_component_judges_the_driver() {
    assert_eq!(ShaderComponent::empty_shader().get_ID(), 0);
    match ShaderComponent::load_and_compile_shader(0, 1, "ignored") {
        Err(text) => assert_eq!(
            text,
            "GPU returned shader with ID 0; perhaps OpenGL is not supported or settings are wrong for the system type?"
        ),
        Ok(_) => panic!("expected an error"),
    }
    match ShaderComponent::load_and_compile_shader(9, 0, "0:1: syntax error") {
        Err(text) => assert_eq!(text, "Compilation Error: 0:1: syntax error"),
        Ok(_) => panic!("expected an error"),
    }
    let shader = ShaderComponent::load_and_compile_shader(9, 1, "").unwrap();
    assert_eq!(shader.get_ID(), 9);
    assert_eq!(shader.delete(), vec![GlCommand::DeleteShader { shader: 9 }]);
}

#[test]
fn every_error_has_its_message() {
    let text = |s: &str| s.to_string();
    let cases = vec![
        (
            RenderError::RenderableError { error: text("a") },
            "Error with OpenGL renderable object: a",
        ),
        (
            RenderError::BufferError { error: text("b") },
            "Error with OpenGL buffer object: b",
        ),
        (RenderError::FontError { error: text("c") }, "Error with font object: c"),
        (
            RenderError::TextureIntError { error: text("d") },
            "Failed to create integer texture: : d",
        ),
        (
            RenderError::TextureError { texture_path: text("p.png"), error: text("e") },
            "Failed to load texture file at p.png: e",
        ),
        (
            RenderError::ShaderError {
                shader_name: text("n"),
                shader_type: text("t"),
                error: text("f"),
            },
            "[n(t)] f",
        ),
        (
            RenderError::WindowError { window_name: text("w"), error: text("g") },
            "[w] g",
        ),
        (RenderError::GLFWError { error: text("h") }, "h"),
    ];
    for (error, expected) in cases {
        assert_eq!(error.message(), expected);
        assert_eq!(error.clone().message(), expected);
    }
}
