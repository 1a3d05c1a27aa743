use gl_render::constants;

#[test]
fn constants_are_those_of_the_gl_crate() {
    assert_eq!(constants::FRAMEBUFFER, gl::FRAMEBUFFER);
    assert_eq!(constants::READ_FRAMEBUFFER, gl::READ_FRAMEBUFFER);
    assert_eq!(constants::DRAW_FRAMEBUFFER, gl::DRAW_FRAMEBUFFER);
    assert_eq!(constants::FRAMEBUFFER_COMPLETE, gl::FRAMEBUFFER_COMPLETE);
    assert_eq!(constants::FRAMEBUFFER_UNDEFINED, gl::FRAMEBUFFER_UNDEFINED);
    assert_eq!(
        constants::FRAMEBUFFER_INCOMPLETE_ATTACHMENT,
        gl::FRAMEBUFFER_INCOMPLETE_ATTACHMENT
    );
    assert_eq!(
        constants::FRAMEBUFFER_INCOMPLETE_MISSING_ATTACHMENT,
        gl::FRAMEBUFFER_INCOMPLETE_MISSING_ATTACHMENT
    );
    assert_eq!(
        constants::FRAMEBUFFER_INCOMPLETE_DRAW_BUFFER,
        gl::FRAMEBUFFER_INCOMPLETE_DRAW_BUFFER
    );
    assert_eq!(
        constants::FRAMEBUFFER_INCOMPLETE_READ_BUFFER,
        gl::FRAMEBUFFER_INCOMPLETE_READ_BUFFER
    );
    assert_eq!(
        constants::FRAMEBUFFER_INCOMPLETE_MULTISAMPLE,
        gl::FRAMEBUFFER_INCOMPLETE_MULTISAMPLE
    );
    assert_eq!(
        constants::FRAMEBUFFER_INCOMPLETE_LAYER_TARGETS,
        gl::FRAMEBUFFER_INCOMPLETE_LAYER_TARGETS
    );
    assert_eq!(constants::TEXTURE_2D, gl::TEXTURE_2D);
    assert_eq!(constants::TEXTURE_2D_MULTISAMPLE, gl::TEXTURE_2D_MULTISAMPLE);
    assert_eq!(constants::TEXTURE_MAG_FILTER, gl::TEXTURE_MAG_FILTER);
    assert_eq!(constants::TEXTURE_MIN_FILTER, gl::TEXTURE_MIN_FILTER);
    assert_eq!(constants::TEXTURE_WRAP_S, gl::TEXTURE_WRAP_S);
    assert_eq!(constants::TEXTURE_WRAP_T, gl::TEXTURE_WRAP_T);
    assert_eq!(constants::NEAREST, gl::NEAREST);
    assert_eq!(constants::LINEAR, gl::LINEAR);
    assert_eq!(constants::CLAMP_TO_EDGE, gl::CLAMP_TO_EDGE);
    assert_eq!(constants::TEXTURE0, gl::TEXTURE0);
    assert_eq!(constants::TEXTURE1, gl::TEXTURE1);
    assert_eq!(constants::RGBA, gl::RGBA);
    assert_eq!(constants::UNSIGNED_BYTE, gl::UNSIGNED_BYTE);
    assert_eq!(constants::UNSIGNED_INT, gl::UNSIGNED_INT);
    assert_eq!(constants::FLOAT, gl::FLOAT);
    assert_eq!(constants::DEPTH24_STENCIL8, gl::DEPTH24_STENCIL8);
    assert_eq!(constants::DEPTH_STENCIL, gl::DEPTH_STENCIL);
    assert_eq!(constants::UNSIGNED_INT_24_8, gl::UNSIGNED_INT_24_8);
    assert_eq!(constants::COLOR_ATTACHMENT0, gl::COLOR_ATTACHMENT0);
    assert_eq!(constants::COLOR_ATTACHMENT1, gl::COLOR_ATTACHMENT1);
    assert_eq!(constants::DEPTH_STENCIL_ATTACHMENT, gl::DEPTH_STENCIL_ATTACHMENT);
    assert_eq!(constants::COLOR_BUFFER_BIT, gl::COLOR_BUFFER_BIT);
    assert_eq!(constants::DEPTH_BUFFER_BIT, gl::DEPTH_BUFFER_BIT);
    assert_eq!(constants::STENCIL_BUFFER_BIT, gl::STENCIL_BUFFER_BIT);
    assert_eq!(constants::DEPTH_TEST, gl::DEPTH_TEST);
    assert_eq!(constants::ONE, gl::ONE);
    assert_eq!(constants::SRC_ALPHA, gl::SRC_ALPHA);
    assert_eq!(constants::ONE_MINUS_SRC_ALPHA, gl::ONE_MINUS_SRC_ALPHA);
    assert_eq!(constants::ARRAY_BUFFER, gl::ARRAY_BUFFER);
    assert_eq!(constants::ELEMENT_ARRAY_BUFFER, gl::ELEMENT_ARRAY_BUFFER);
    assert_eq!(constants::STATIC_DRAW, gl::STATIC_DRAW);
    assert_eq!(constants::TRIANGLES, gl::TRIANGLES);
    assert_eq!(constants::UNPACK_ALIGNMENT, gl::UNPACK_ALIGNMENT);
    assert_eq!(constants::TEXTURE_1D, gl::TEXTURE_1D);
    assert_eq!(constants::TEXTURE_3D, gl::TEXTURE_3D);
    assert_eq!(constants::REPEAT, gl::REPEAT);
    assert_eq!(constants::RED_INTEGER, gl::RED_INTEGER);
    assert_eq!(constants::R8UI, gl::R8UI);
    assert_eq!(constants::R32UI, gl::R32UI);
}
