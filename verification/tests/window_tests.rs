use gl_render::gl_window::{
    GLWindow, KeyAction, Monitor, WindowAction, WindowEvent, KEY_F11,
};
use gl_render::types::{IVec2, UVec2};

fn monitor() -> Monitor {
    Monitor { pos: IVec2::new(1920, 0), size: UVec2::new(2560, 1440) }
}

#[test]
fn a_new_window_is_resized_in_its_first_frame() {
    let mut window = GLWindow::new(800, 600, IVec2::new(10, 20));
    assert!(window.has_resized_this_frame());
    assert!(!window.is_fullscreen());
    assert_eq!(window.get_window_size(), UVec2::new(800, 600));
    assert_eq!(window.update_viewport(), WindowAction::Viewport { width: 800, height: 600 });
    window.reset_deltas();
    assert!(!window.has_resized_this_frame());
}

#[test]
fn a_new_framebuffer_size_sets_the_viewport() {
    let mut window = GLWindow::new(800, 600, IVec2::new(0, 0));
    window.reset_deltas();
    let actions = window.handle_event(WindowEvent::FramebufferSize(1024, 768), monitor());
    assert_eq!(actions, vec![WindowAction::Viewport { width: 1024, height: 768 }]);
    assert!(window.has_resized_this_frame());
    assert_eq!(window.get_window_size(), UVec2::new(1024, 768));
}

#[test]
fn f11_switches_to_the_full_screen_and_back() {
    let mut window = GLWindow::new(800, 600, IVec2::new(10, 20));
    let events = vec![
        WindowEvent::Pos(30, 40),
        WindowEvent::Key(KEY_F11, KeyAction::Press),
        WindowEvent::Pos(99, 99),
        WindowEvent::FramebufferSize(2560, 1400),
        WindowEvent::Key(KEY_F11, KeyAction::Release),
    ];
    let actions = window.handle_events(&events, monitor());
    assert_eq!(
        actions,
        vec![
            WindowAction::EnterFullscreen {
                pos: IVec2::new(1920, 0),
                size: UVec2::new(2560, 1440)
            },
            WindowAction::Viewport { width: 2560, height: 1440 },
            WindowAction::Viewport { width: 2560, height: 1400 },
        ]
    );
    assert!(window.is_fullscreen());
    assert_eq!(window.get_window_size(), UVec2::new(2560, 1400));
    assert!(!window.has_key_pressed(KEY_F11));

    let actions = window.handle_event(WindowEvent::Key(KEY_F11, KeyAction::Press), monitor());
    assert_eq!(
        actions,
        vec![
            WindowAction::LeaveFullscreen {
                pos: IVec2::new(30, 40),
                size: UVec2::new(800, 600)
            },
            WindowAction::Viewport { width: 800, height: 600 },
        ]
    );
    assert!(!window.is_fullscreen());
}

#[test]
fn asking_for_the_full_screen_twice_goes_back_to_the_window() {
    let mut window = GLWindow::new(640, 480, IVec2::new(5, 6));
    assert_eq!(
        window.set_fullscreen_mode(false, monitor()),
        vec![WindowAction::Viewport { width: 640, height: 480 }]
    );
    window.set_fullscreen_mode(true, monitor());
    let actions = window.set_fullscreen_mode(true, monitor());
    assert_eq!(
        actions,
        vec![
            WindowAction::LeaveFullscreen { pos: IVec2::new(5, 6), size: UVec2::new(640, 480) },
            WindowAction::Viewport { width: 2560, height: 1440 },
        ]
    );
    assert!(window.is_fullscreen());
}

#[test]
fn keys_are_held_from_press_to_release() {
    let mut window = GLWindow::new(640, 480, IVec2::new(0, 0));
    let events = vec![
        WindowEvent::Key(65, KeyAction::Press),
        WindowEvent::Key(66, KeyAction::Press),
        WindowEvent::Key(65, KeyAction::Repeat),
        WindowEvent::Other,
        WindowEvent::Key(66, KeyAction::Release),
        WindowEvent::Key(67, KeyAction::Release),
    ];
    assert!(window.handle_events(&events, monitor()).is_empty());
    assert!(window.has_key_pressed(65));
    assert!(!window.has_key_pressed(66));
    assert!(!window.has_key_pressed(67));
}
