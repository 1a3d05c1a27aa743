use gl_render::command::{GlCommand, GlQuery};
use gl_render::constants::{
    LINEAR, NEAREST, R32UI, R8UI, RED_INTEGER, REPEAT, RGBA, TEXTURE0, TEXTURE_1D, TEXTURE_2D,
    TEXTURE_3D, TEXTURE_MAG_FILTER, TEXTURE_MIN_FILTER, TEXTURE_WRAP_S, TEXTURE_WRAP_T,
    UNPACK_ALIGNMENT, UNSIGNED_BYTE, UNSIGNED_INT,
};
use gl_render::context::GraphicsContext;
use gl_render::plan::Construction;
use gl_render::texture::{
    Texture1D, Texture1DInt, Texture2D, Texture2DInt, Texture2Du8, Texture3D, Texture3DInt,
    Texture3Du8, TextureManager,
};
use gl_render::types::{IVec2, IVec3};
use gl_render::RenderError;

fn parameters(target: u32, filter: u32) -> Vec<GlCommand> {
    vec![
        GlCommand::TexParameteri { target, parameter: TEXTURE_WRAP_S, setting: REPEAT },
        GlCommand::TexParameteri { target, parameter: TEXTURE_WRAP_T, setting: REPEAT },
        GlCommand::TexParameteri { target, parameter: TEXTURE_MIN_FILTER, setting: filter },
        GlCommand::TexParameteri { target, parameter: TEXTURE_MAG_FILTER, setting: filter },
    ]
}

fn bound(target: u32, texture: u32) -> Vec<GlCommand> {
    vec![
        GlCommand::ActiveTexture { unit: TEXTURE0 },
        GlCommand::BindTexture { target, texture },
    ]
}

fn built<T>(step: Construction<T>) -> (Vec<GlCommand>, T) {
    match step {
        Construction::Built { commands, value } => (commands, value),
        Construction::Ask { .. } => panic!("the construction asks"),
        Construction::Failed { error, .. } => panic!("failed: {}", error.message()),
    }
}

fn failure<T>(step: Construction<T>) -> String {
    match step {
        Construction::Failed { commands, error } => {
            assert!(commands.is_empty());
            error.message()
        }
        _ => panic!("expected a failure"),
    }
}

#[test]
fn texture_1d_takes_a_name_once_and_keeps_it() {
    let blank = Texture1D::new();
    assert_eq!(blank.id(), 0);
    let data = vec![0u8; 16];
    match blank.set_data(&data, 4, true, &vec![]) {
        Construction::Ask { commands, query } => {
            assert!(commands.is_empty());
            assert_eq!(query, GlQuery::GenTexture);
        }
        _ => panic!("expected a question"),
    }
    let (commands, texture) = built(blank.set_data(&data, 4, true, &vec![9]));
    let mut expected = bound(TEXTURE_1D, 9);
    expected.extend(parameters(TEXTURE_1D, LINEAR));
    expected.push(GlCommand::TexImage1D {
        internal_format: RGBA,
        width: 4,
        format: RGBA,
        data_type: UNSIGNED_BYTE,
    });
    assert_eq!(commands, expected);
    assert_eq!((texture.id(), texture.size()), (9, 4));
    let (commands, again) = built(texture.set_data(&data, 2, false, &vec![]));
    assert_eq!(again.id(), 9);
    assert_eq!(again.size(), 2);
    assert_eq!(commands[2..6].to_vec(), parameters(TEXTURE_1D, NEAREST));
    assert_eq!(
        failure(blank.set_data(&data, 4, true, &vec![0])),
        "Failed to create integer texture: : Failed to generate OpenGL texture ID."
    );
    assert_eq!(again.destroy(), vec![GlCommand::DeleteTexture { texture: 9 }]);
}

#[test]
fn texture_1d_int_is_as_long_as_its_data() {
    let data = vec![1u32, 2, 3];
    let (commands, texture) = built(Texture1DInt::new().set_data(&data, &vec![4]));
    assert_eq!(texture.size(), 3);
    assert_eq!(
        commands[6],
        GlCommand::TexImage1D {
            internal_format: R32UI,
            width: 3,
            format: RED_INTEGER,
            data_type: UNSIGNED_INT,
        }
    );
    assert_eq!(texture.bind(), bound(TEXTURE_1D, 4));
}

#[test]
fn integer_textures_refuse_data_that_does_not_fit() {
    let text = "Failed to create integer texture: : Set image dimensions do not fit the size of the provided data!";
    let five = vec![0u32; 5];
    let six = vec![0u32; 6];
    let bytes = vec![0u8; 6];
    assert_eq!(
        failure(Texture2DInt::new().set_data(&five, IVec2::new(2, 3), &vec![1])),
        text
    );
    assert_eq!(
        failure(Texture2Du8::new().set_data(&bytes, IVec2::new(2, 2), &vec![1])),
        text
    );
    assert_eq!(
        failure(Texture3DInt::new().set_data(&six, IVec3::new(1, 2, 4), &vec![1])),
        text
    );
    assert_eq!(
        failure(Texture3Du8::new().set_data(&bytes, IVec3::new(6, 1, 0), &vec![1])),
        text
    );
    assert_eq!(
        failure(Texture2DInt::new().set_data(&six, IVec2::new(i32::MAX, i32::MAX), &vec![1])),
        text
    );

    let (commands, texture) = built(Texture2DInt::new().set_data(&six, IVec2::new(2, 3), &vec![7]));
    assert_eq!(texture.size(), IVec2::new(2, 3));
    assert_eq!(
        commands[6],
        GlCommand::TexImage2DData {
            internal_format: R32UI,
            width: 2,
            height: 3,
            format: RED_INTEGER,
            data_type: UNSIGNED_INT,
        }
    );
    let (commands, _) = built(Texture2Du8::new().set_data(&bytes, IVec2::new(3, 2), &vec![7]));
    assert_eq!(commands.len(), 8);
    assert_eq!(
        commands[6],
        GlCommand::PixelStorei { parameter: UNPACK_ALIGNMENT, number: 1 }
    );
    assert_eq!(
        commands[7],
        GlCommand::TexImage2DData {
            internal_format: R8UI,
            width: 3,
            height: 2,
            format: RED_INTEGER,
            data_type: UNSIGNED_BYTE,
        }
    );
    let (commands, texture) =
        built(Texture3DInt::new().set_data(&six, IVec3::new(1, 2, 3), &vec![7]));
    assert_eq!(texture.bind_to_unit(2)[0], GlCommand::ActiveTexture { unit: TEXTURE0 + 2 });
    assert_eq!(commands[0..2].to_vec(), bound(TEXTURE_3D, 7));
    assert_eq!(
        commands[6],
        GlCommand::TexImage3D {
            internal_format: R32UI,
            width: 1,
            height: 2,
            layers: 3,
            format: RED_INTEGER,
            data_type: UNSIGNED_INT,
        }
    );
    let (commands, _) = built(Texture3Du8::new().set_data(&bytes, IVec3::new(-1, -2, 3), &vec![7]));
    assert_eq!(commands.len(), 8);
    assert_eq!(
        commands[6],
        GlCommand::PixelStorei { parameter: UNPACK_ALIGNMENT, number: 1 }
    );
    assert_eq!(
        commands[7],
        GlCommand::TexImage3D {
            internal_format: R8UI,
            width: -1,
            height: -2,
            layers: 3,
            format: RED_INTEGER,
            data_type: UNSIGNED_BYTE,
        }
    );
}

#[test]
fn raw_textures_are_made_from_their_data() {
    let data = vec![0u8; 4 * 6];
    let (commands, texture) = built(Texture2D::new_from_raw_data(
        &data,
        IVec2::new(3, 2),
        true,
        &vec![5],
    ));
    let mut expected = bound(TEXTURE_2D, 5);
    expected.extend(parameters(TEXTURE_2D, LINEAR));
    expected.push(GlCommand::TexImage2DData {
        internal_format: RGBA,
        width: 3,
        height: 2,
        format: RGBA,
        data_type: UNSIGNED_BYTE,
    });
    assert_eq!(commands, expected);
    assert_eq!(texture.size(), IVec2::new(3, 2));
    let (commands, volume) = built(Texture3D::new_from_raw_data(
        &data,
        IVec3::new(3, 2, 1),
        false,
        &vec![6],
    ));
    assert_eq!(commands[2..6].to_vec(), parameters(TEXTURE_3D, NEAREST));
    assert_eq!(volume.id(), 6);
    assert!(Texture3D::new_uninitialised().destroy().is_empty());
    assert!(Texture2D::new_uninitialised().destroy().is_empty());
    assert_eq!(
        failure(Texture2D::new_from_raw_data(&data, IVec2::new(3, 2), true, &vec![0])),
        "Failed to create integer texture: : Failed to generate OpenGL texture ID."
    );
}

#[test]
fn a_file_that_cannot_be_read_becomes_the_error_texture() {
    assert_eq!(
        Texture2D::error_pixels(),
        vec![0, 0, 0, 255, 255, 255, 0, 255, 0, 0, 0, 255, 255, 255, 0, 255]
    );
    let (commands, texture) = built(Texture2D::new(None, true, &vec![3]));
    assert_eq!(texture.size(), IVec2::new(2, 2));
    assert_eq!(commands[2..6].to_vec(), parameters(TEXTURE_2D, NEAREST));
    let (same, _) = built(Texture2D::new_error_texture(&vec![3]));
    assert_eq!(commands, same);
    let pixels = vec![7u8; 4];
    let (commands, texture) = built(Texture2D::new(
        Some((&pixels, IVec2::new(1, 1))),
        true,
        &vec![3],
    ));
    assert_eq!(texture.size(), IVec2::new(1, 1));
    assert_eq!(commands[2..6].to_vec(), parameters(TEXTURE_2D, LINEAR));
}

#[test]
fn uploaded_textures_have_storage_on_a_context() {
    let mut context = GraphicsContext::new();
    let name = context.answer(GlQuery::GenTexture);
    let data = vec![0u8; 4 * 12];
    let (commands, texture) = built(Texture2D::new_from_raw_data(
        &data,
        IVec2::new(4, 3),
        false,
        &vec![name],
    ));
    context.run(&commands);
    let stored = context.texture(texture.id()).unwrap();
    assert_eq!((stored.width, stored.height, stored.samples), (4, 3, 0));
    context.run(&texture.destroy());
    assert!(!context.is_texture(name));
}

fn texture(id: u32) -> Texture2D {
    let data = vec![0u8; 4];
    built(Texture2D::new_from_raw_data(&data, IVec2::new(1, 1), false, &vec![id])).1
}

#[test]
fn texture_manager_binds_the_stand_in_for_a_missing_name() {
    let mut manager = TextureManager::new();
    assert!(manager.initialise_error_texture(texture(1)).is_empty());
    let (commands, clash) = manager.register_texture("grass".to_string(), Ok(texture(2)));
    assert!(commands.is_empty());
    assert!(clash.is_ok());

    let (commands, found) = manager.bind("grass".to_string());
    assert!(found);
    assert_eq!(commands, bound(TEXTURE_2D, 2));
    let (commands, found) = manager.bind_to_unit("stone".to_string(), 3);
    assert!(!found);
    assert_eq!(
        commands,
        vec![
            GlCommand::ActiveTexture { unit: TEXTURE0 + 3 },
            GlCommand::BindTexture { target: TEXTURE_2D, texture: 1 },
        ]
    );
    assert_eq!(
        manager.initialise_error_texture(texture(8)),
        vec![GlCommand::DeleteTexture { texture: 1 }]
    );
}

#[test]
fn texture_manager_replaces_and_reports_a_name_that_is_taken() {
    let mut manager = TextureManager::new();
    manager.register_texture("grass".to_string(), Ok(texture(2))).1.unwrap();
    let (commands, clash) = manager.register_texture("grass".to_string(), Ok(texture(5)));
    assert_eq!(commands, vec![GlCommand::DeleteTexture { texture: 2 }]);
    match clash {
        Err(RenderError::TextureError { texture_path, error }) => {
            assert_eq!(texture_path, "grass");
            assert_eq!(error, "Texture already exists in texture manager!");
        }
        _ => panic!("expected a texture error"),
    }
    assert_eq!(manager.bind("grass".to_string()).0, bound(TEXTURE_2D, 5));

    let failed = Err(RenderError::TextureIntError { error: "no".to_string() });
    let (commands, handed_on) = manager.register_texture("stone".to_string(), failed);
    assert!(commands.is_empty());
    assert!(matches!(handed_on, Err(RenderError::TextureIntError { .. })));
    assert!(!manager.bind("stone".to_string()).1);
}

#[test]
fn texture_files_come_from_the_table_of_the_assets_folder() {
    assert_eq!(
        TextureManager::definitions_file("assets/graphics"),
        "assets/graphics/textures.toml"
    );
    let document = "grass = \"blocks/grass.png\"\nstone = \"stone.png\"\n".to_string();
    let mut files =
        TextureManager::load_textures_from_assets_folder("assets/graphics", Ok(document)).unwrap();
    files.sort_by(|a, b| a.id.cmp(&b.id));
    assert_eq!(files.len(), 2);
    assert_eq!(files[0].id, "grass");
    assert_eq!(files[0].path, "assets/graphics/textures/blocks/grass.png");
    assert_eq!(files[1].id, "stone");
    assert_eq!(files[1].path, "assets/graphics/textures/stone.png");

    let empty = TextureManager::load_textures_from_assets_folder("a", Ok(String::new())).unwrap();
    assert!(empty.is_empty());
}

#[test]
fn a_table_that_cannot_be_read_is_a_texture_error() {
    let missing = TextureManager::load_textures_from_assets_folder(
        "assets",
        Err("No such file or directory (os error 2)".to_string()),
    );
    match missing {
        Err(error) => assert_eq!(
            error.message(),
            "Failed to load texture file at assets/textures.toml: No such file or directory (os error 2)"
        ),
        Ok(_) => panic!("expected an error"),
    }
    for document in ["grass = ", "grass = 3", "[grass]\nfile = \"a.png\"", "a = \"1\"\na = \"2\""] {
        let result =
            TextureManager::load_textures_from_assets_folder("assets", Ok(document.to_string()));
        let expected = toml::from_str::<std::collections::HashMap<String, String>>(document)
            .unwrap_err()
            .to_string();
        match result {
            Err(RenderError::TextureError { texture_path, error }) => {
                assert_eq!(texture_path, "assets/textures.toml");
                assert!(!error.is_empty());
                assert_eq!(error, expected);
            }
            _ => panic!("expected a texture error for {:?}", document),
        }
    }
}

#[test]
fn texture_files_keep_the_order_of_their_entries() {
    let entries = vec![
        ("b".to_string(), "2.png".to_string()),
        ("a".to_string(), "1.png".to_string()),
    ];
    let files = TextureManager::texture_files("base", &entries);
    assert_eq!(files.len(), 2);
    assert_eq!((files[0].id.as_str(), files[0].path.as_str()), ("b", "base/textures/2.png"));
    assert_eq!((files[1].id.as_str(), files[1].path.as_str()), ("a", "base/textures/1.png"));
}

#[test]
fn flipping_an_image_puts_its_last_row_first() {
    let rows = vec![
        1, 1, 1, 1, 2, 2, 2, 2, // top row
        3, 3, 3, 3, 4, 4, 4, 4, // middle row
        5, 5, 5, 5, 6, 6, 6, 6, // bottom row
    ];
    let flipped = Texture2D::flip_rows(rows.clone(), IVec2::new(2, 3)).unwrap();
    assert_eq!(
        flipped,
        vec![
            5, 5, 5, 5, 6, 6, 6, 6, //
            3, 3, 3, 3, 4, 4, 4, 4, //
            1, 1, 1, 1, 2, 2, 2, 2,
        ]
    );
    assert_eq!(Texture2D::flip_rows(flipped, IVec2::new(2, 3)).unwrap(), rows);
    assert_eq!(Texture2D::flip_rows(Vec::new(), IVec2::new(0, 5)), Some(Vec::new()));
    assert_eq!(
        Texture2D::flip_rows(Vec::new(), IVec2::new(0x4000_0000, 0)),
        Some(Vec::new())
    );
    assert_eq!(Texture2D::flip_rows(Vec::new(), IVec2::new(i32::MAX, 0)), Some(Vec::new()));
    assert_eq!(
        Texture2D::flip_rows(vec![1, 2, 3, 4, 5, 6, 7, 8], IVec2::new(2, 1)),
        Some(vec![1, 2, 3, 4, 5, 6, 7, 8])
    );
}

#[test]
fn flipping_refuses_data_that_is_no_image_of_the_size() {
    assert_eq!(Texture2D::flip_rows(vec![0; 24], IVec2::new(3, 3)), None);
    assert_eq!(Texture2D::flip_rows(vec![0; 24], IVec2::new(-2, -3)), None);
    assert_eq!(Texture2D::flip_rows(vec![0; 23], IVec2::new(2, 3)), None);
    assert_eq!(Texture2D::flip_rows(vec![0; 4], IVec2::new(i32::MAX, i32::MAX)), None);
}

#[test]
fn texture_units_count_on_from_the_first_and_start_over() {
    let data = vec![0u8; 4];
    let (_, texture) =
        built(Texture2D::new_from_raw_data(&data, IVec2::new(1, 1), false, &vec![5]));
    assert_eq!(texture.bind_to_unit(0), texture.bind());
    assert_eq!(texture.bind_to_unit(31)[0], GlCommand::ActiveTexture { unit: TEXTURE0 + 31 });
    assert_eq!(
        texture.bind_to_unit(u32::MAX)[0],
        GlCommand::ActiveTexture { unit: TEXTURE0 - 1 }
    );
}
