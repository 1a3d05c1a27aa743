use gl_render::command::{GlCommand, GlQuery, Payload};
use gl_render::constants::{ARRAY_BUFFER, ELEMENT_ARRAY_BUFFER};
use gl_render::plan::Construction;
use gl_render::renderable::{GlRenderable, MockRenderable, NullableRenderable, Renderable};
use gl_render::{RenderError, Vertex, Vertex2d, Vertex3d};

fn vertex(x: f32, y: f32, u: f32, v: f32) -> Vertex2d {
    Vertex2d {
        x: x.to_bits(),
        y: y.to_bits(),
        u: u.to_bits(),
        v: v.to_bits(),
    }
}

fn three_vertices() -> Vec<Vertex2d> {
    vec![
        vertex(1.0, 2.0, 3.0, 4.0),
        vertex(5.0, 6.0, 7.0, 8.0),
        vertex(9.0, 10.0, 11.0, 12.0),
    ]
}

#[test]
fn sets_initialised_on_initialise() {
    let mut nullable_renderable = NullableRenderable::<Vertex2d>::new(false, vec![], None, false);

    nullable_renderable.initialise(&vec![], None).unwrap();

    assert_eq!(true, nullable_renderable.is_initialised());
}

#[test]
fn sets_uninitialised_on_uninitialise() {
    let mut nullable_renderable = NullableRenderable::<Vertex2d>::new(true, vec![], None, false);

    nullable_renderable.uninitialise();

    assert_eq!(false, nullable_renderable.is_initialised());
}

#[test]
fn sets_vertices_on_initialise() {
    let expected_vertices = three_vertices();
    let mut nullable_renderable = NullableRenderable::<Vertex2d>::new(false, vec![], None, false);

    nullable_renderable
        .initialise(&expected_vertices, None)
        .unwrap();

    assert_eq!(expected_vertices, *nullable_renderable.vertices());
}

#[test]
fn sets_vertices_on_update_data() {
    let expected_vertices = three_vertices();
    let mut nullable_renderable = NullableRenderable::<Vertex2d>::new(false, vec![], None, false);

    nullable_renderable.initialise(&vec![], None).unwrap();
    nullable_renderable
        .update_data(&expected_vertices, None)
        .unwrap();

    assert_eq!(expected_vertices, *nullable_renderable.vertices());
}

#[test]
fn update_data_returns_err_when_not_initialised() {
    let expected_vertices = three_vertices();
    let mut nullable_renderable = NullableRenderable::<Vertex2d>::new(false, vec![], None, false);

    assert!(matches!(
        nullable_renderable.update_data(&expected_vertices, None),
        Err { .. }
    ));
    assert!(nullable_renderable.vertices().is_empty());
}

#[test]
fn sets_indices_on_initialise() {
    let expected_vertices = vec![1, 2, 3, 4, 5, 6];
    let mut nullable_renderable = NullableRenderable::<Vertex2d>::new(false, vec![], None, false);

    nullable_renderable
        .initialise(&vec![], Some(&expected_vertices))
        .unwrap();

    assert_eq!(expected_vertices, *nullable_renderable.indices().unwrap());
}

#[test]
fn nullable_renderable_remembers_that_it_was_drawn() {
    let mut renderable = NullableRenderable::<Vertex2d>::new(true, vec![], None, false);
    assert!(!renderable.was_drawn());
    renderable.draw();
    assert!(renderable.was_drawn());
    assert!(renderable.is_initialised());
}

#[test]
fn mock_renderable_follows_initialise_and_uninitialise() {
    let mut mock = MockRenderable::new_uninitialised();
    assert!(!mock.is_initialised());
    mock.initialise(&three_vertices(), None).unwrap();
    assert!(mock.is_initialised());
    mock.update_data(&three_vertices(), None).unwrap();
    mock.draw();
    assert!(mock.is_initialised());
    mock.uninitialise();
    assert!(!mock.is_initialised());
    let ready = MockRenderable::new_initialised(&three_vertices(), None).unwrap();
    assert!(ready.is_initialised());
}

#[test]
fn vertex_layouts_describe_position_then_texture_coordinate() {
    assert_eq!(Vertex2d::byte_size(), 16);
    assert_eq!(Vertex3d::byte_size(), 20);
    assert_eq!(
        Vertex2d::initialise_attrib_ptrs(),
        vec![
            GlCommand::VertexAttribPointer { index: 0, components: 2, stride: 16, offset: 0 },
            GlCommand::EnableVertexAttribArray { index: 0 },
            GlCommand::VertexAttribPointer { index: 1, components: 2, stride: 16, offset: 8 },
            GlCommand::EnableVertexAttribArray { index: 1 },
        ]
    );
    assert_eq!(
        Vertex3d::initialise_attrib_ptrs(),
        vec![
            GlCommand::VertexAttribPointer { index: 0, components: 3, stride: 20, offset: 0 },
            GlCommand::EnableVertexAttribArray { index: 0 },
            GlCommand::VertexAttribPointer { index: 1, components: 2, stride: 20, offset: 12 },
            GlCommand::EnableVertexAttribArray { index: 1 },
        ]
    );
}

#[test]
fn gl_renderable_without_indices_takes_two_names() {
    let blank = GlRenderable::<Vertex2d>::new();
    assert!(!blank.is_initialised());
    assert!(blank.draw().is_empty());
    let vertices = three_vertices();
    match blank.initialise(&vertices, None, &vec![]) {
        Construction::Ask { commands, query } => {
            assert!(commands.is_empty());
            assert_eq!(query, GlQuery::GenVertexArray);
        }
        _ => panic!("expected a question"),
    }
    match blank.initialise(&vertices, None, &vec![11]) {
        Construction::Ask { query, .. } => assert_eq!(query, GlQuery::GenBuffer),
        _ => panic!("expected a question"),
    }
    match blank.initialise(&vertices, None, &vec![11, 12]) {
        Construction::Built { commands, value } => {
            assert_eq!(commands.len(), 10);
            assert_eq!(commands[0], GlCommand::BindBuffer { target: ARRAY_BUFFER, buffer: 12 });
            assert_eq!(
                commands[1],
                GlCommand::BufferData {
                    target: ARRAY_BUFFER,
                    payload: Payload::Vertices,
                    bytes: 48
                }
            );
            assert_eq!(commands[2], GlCommand::BindVertexArray { array: 11 });
            assert_eq!(commands[7], GlCommand::BindVertexArray { array: 0 });
            assert!(value.is_initialised());
            assert_eq!(
                value.draw(),
                vec![
                    GlCommand::BindVertexArray { array: 11 },
                    GlCommand::DrawArrays { count: 3 },
                    GlCommand::BindVertexArray { array: 0 },
                ]
            );
        }
        _ => panic!("expected a renderable"),
    }
}

#[test]
fn gl_renderable_with_indices_takes_three_names_and_draws_elements() {
    let blank = GlRenderable::<Vertex3d>::new();
    let vertices = vec![Vertex3d { x: 0, y: 0, z: 0, u: 0, v: 0 }; 4];
    let indices = vec![0, 1, 2, 2, 1, 3];
    match blank.initialise(&vertices, Some(&indices), &vec![1, 2]) {
        Construction::Ask { commands, query } => {
            assert_eq!(query, GlQuery::GenBuffer);
            assert_eq!(
                commands[1],
                GlCommand::BufferData {
                    target: ARRAY_BUFFER,
                    payload: Payload::Vertices,
                    bytes: 80
                }
            );
        }
        _ => panic!("expected a question"),
    }
    let mut built = match blank.initialise(&vertices, Some(&indices), &vec![1, 2, 3]) {
        Construction::Built { commands, value } => {
            assert_eq!(
                commands[0],
                GlCommand::BindBuffer { target: ELEMENT_ARRAY_BUFFER, buffer: 3 }
            );
            assert_eq!(
                commands[1],
                GlCommand::BufferData {
                    target: ELEMENT_ARRAY_BUFFER,
                    payload: Payload::Indices,
                    bytes: 24
                }
            );
            value
        }
        _ => panic!("expected a renderable"),
    };
    assert_eq!(built.draw()[1], GlCommand::DrawElements { count: 6 });
    match built.update_data(&vertices, None) {
        Err(error) => assert_eq!(
            error.message(),
            "Error with OpenGL renderable object: No index data provided to an indexed renderable!"
        ),
        Ok(_) => panic!("expected an error"),
    }
    let shorter = vec![0, 1, 2];
    let commands = built.update_data(&vertices, Some(&shorter)).unwrap();
    assert_eq!(commands.len(), 6);
    assert_eq!(built.draw()[1], GlCommand::DrawElements { count: 3 });
    let released = built.uninitialise();
    assert_eq!(
        released,
        vec![
            GlCommand::DeleteVertexArray { array: 1 },
            GlCommand::DeleteBuffer { buffer: 2 },
            GlCommand::DeleteBuffer { buffer: 3 },
        ]
    );
    assert!(!built.is_initialised());
    assert!(built.uninitialise().is_empty());
}

#[test]
fn gl_renderable_reports_each_name_refused() {
    let blank = GlRenderable::<Vertex2d>::new();
    let vertices = three_vertices();
    let indices = vec![0, 1, 2];
    let text = |step: Construction<GlRenderable<Vertex2d>>| match step {
        Construction::Failed { commands, error } => (commands, error.message()),
        _ => panic!("expected a failure"),
    };
    let (commands, message) = text(blank.initialise(&vertices, Some(&indices), &vec![0]));
    assert!(commands.is_empty());
    assert_eq!(
        message,
        "Error with OpenGL renderable object: Failed to create vertex array for the world map!"
    );
    let (commands, message) = text(blank.initialise(&vertices, Some(&indices), &vec![4, 0]));
    assert_eq!(commands, vec![GlCommand::DeleteVertexArray { array: 4 }]);
    assert_eq!(
        message,
        "Error with OpenGL renderable object: Failed to create vertex buffer for the world map!"
    );
    let (commands, message) = text(blank.initialise(&vertices, Some(&indices), &vec![4, 5, 0]));
    assert_eq!(
        commands,
        vec![
            GlCommand::DeleteVertexArray { array: 4 },
            GlCommand::DeleteBuffer { buffer: 5 },
        ]
    );
    assert_eq!(
        message,
        "Error with OpenGL renderable object: Failed to create index buffer for the world map!"
    );
}

#[test]
fn updating_an_uninitialised_gl_renderable_is_an_error() {
    let mut blank = GlRenderable::<Vertex2d>::new();
    match blank.update_data(&three_vertices(), None) {
        Err(RenderError::RenderableError { error }) => assert_eq!(
            error,
            "Tried to set data for a renderable that isn't initialised!"
        ),
        _ => panic!("expected an error"),
    }
    assert!(!blank.is_initialised());
}
