//! The state of the window, as the events of the window system change it.
//!
//! The window system itself is not called from here. A backend hands the
//! events over as they come and carries out the actions that it gets back.

use std::collections::HashSet;
use vstd::prelude::*;
use vstd::std_specs::hash::*;
use crate::types::{IVec2, UVec2};

verus! {

/// The key that switches between the window and the full screen, by the
/// code that the window system gives it.
pub const KEY_F11: i32 = 300;

/// What happened to a key.
#[derive(Debug, Clone, Copy, PartialEq, Eq, Structural)]
pub enum KeyAction {
    Release,
    Press,
    Repeat,
}

/// An event of the window system, as far as the state of the window depends
/// on it.
#[derive(Debug, Clone, Copy, PartialEq, Eq, Structural)]
pub enum WindowEvent {
    /// The framebuffer of the window has this width and height now.
    FramebufferSize(i32, i32),
    /// The window is at this position now.
    Pos(i32, i32),
    /// A key, by its code, was pressed, released or repeats.
    Key(i32, KeyAction),
    /// Any other event.
    Other,
}

/// The monitor that a full-screen window takes: its position and the size of
/// its video mode.
#[derive(Debug, Clone, Copy, PartialEq, Eq, Structural)]
pub struct Monitor {
    pub pos: IVec2,
    pub size: UVec2,
}

/// Something for the backend to do.
#[derive(Debug, Clone, Copy, PartialEq, Eq, Structural)]
pub enum WindowAction {
    /// Set the viewport to the rectangle from the origin of this width and
    /// height.
    Viewport { width: i32, height: i32 },
    /// Put the window on the first monitor, full screen, at this position
    /// and size.
    EnterFullscreen { pos: IVec2, size: UVec2 },
    /// Make the window a window again, at this position and size.
    LeaveFullscreen { pos: IVec2, size: UVec2 },
}

/// The state of the window.
pub struct GLWindow {
    window_size: UVec2,
    window_pos: IVec2,
    fullscreen_size: UVec2,
    fullscreen_pos: IVec2,
    fullscreen: bool,
    has_resized_this_frame: bool,
    keys_pressed: HashSet<i32>,
}

/// What a `GLWindow` holds.
pub struct GLWindowView {
    /// The size of the window while it is a window.
    pub window_size: UVec2,
    /// The position of the window while it is a window.
    pub window_pos: IVec2,
    /// The size of the window while it fills the screen.
    pub fullscreen_size: UVec2,
    /// The position of the monitor that the window fills.
    pub fullscreen_pos: IVec2,
    /// Whether the window fills the screen.
    pub fullscreen: bool,
    /// Whether the size changed since the deltas were last reset.
    pub has_resized_this_frame: bool,
    /// The codes of the keys that are held down.
    pub keys_pressed: Set<i32>,
}

impl View for GLWindow {
    type V = GLWindowView;

    closed spec fn view(&self) -> GLWindowView {
        GLWindowView {
            window_size: self.window_size,
            window_pos: self.window_pos,
            fullscreen_size: self.fullscreen_size,
            fullscreen_pos: self.fullscreen_pos,
            fullscreen: self.fullscreen,
            has_resized_this_frame: self.has_resized_this_frame,
            keys_pressed: self.keys_pressed@,
        }
    }
}

impl GLWindowView {
    /// The size that the window has at present.
    pub open spec fn size(self) -> UVec2 {
        if self.fullscreen {
            self.fullscreen_size
        } else {
            self.window_size
        }
    }

    /// The action that sets the viewport to the size of the window.
    pub open spec fn viewport(self) -> WindowAction {
        WindowAction::Viewport { width: self.size().x as i32, height: self.size().y as i32 }
    }

    /// The window after a switch to the full screen or back, with the
    /// actions that make the switch.
    ///
    /// A window that is to fill the screen and does not yet takes position
    /// and size from the monitor. One that fills the screen goes back to the
    /// position and size that it had as a window, also where it is told to
    /// fill the screen once more. The viewport follows in any case.
    pub open spec fn switched(self, fullscreen: bool, monitor: Monitor) -> (
        GLWindowView,
        Seq<WindowAction>,
    ) {
        if fullscreen && !self.fullscreen {
            let next = GLWindowView {
                fullscreen_size: monitor.size,
                fullscreen_pos: monitor.pos,
                fullscreen: true,
                ..self
            };
            (
                next,
                seq![
                    WindowAction::EnterFullscreen { pos: monitor.pos, size: monitor.size },
                    next.viewport(),
                ],
            )
        } else if self.fullscreen {
            let next = GLWindowView { fullscreen, ..self };
            (
                next,
                seq![
                    WindowAction::LeaveFullscreen { pos: self.window_pos, size: self.window_size },
                    next.viewport(),
                ],
            )
        } else {
            let next = GLWindowView { fullscreen, ..self };
            (next, seq![next.viewport()])
        }
    }

    /// The window after one event, with the actions that the event asks
    /// for.
    ///
    /// A new framebuffer size becomes the size of the window in its present
    /// mode, sets the viewport and marks the frame as resized. A new position
    /// is taken while the window is a window. A press of F11 switches
    /// between window and full screen. Any other press puts the key among
    /// those held down, and a release takes it out.
    pub open spec fn handled(self, event: WindowEvent, monitor: Monitor) -> (
        GLWindowView,
        Seq<WindowAction>,
    ) {
        match event {
            WindowEvent::FramebufferSize(width, height) => {
                let size = UVec2 { x: width as u32, y: height as u32 };
                let sized = if self.fullscreen {
                    GLWindowView { fullscreen_size: size, ..self }
                } else {
                    GLWindowView { window_size: size, ..self }
                };
                (
                    GLWindowView { has_resized_this_frame: true, ..sized },
                    seq![sized.viewport()],
                )
            },
            WindowEvent::Pos(x, y) => if self.fullscreen {
                (self, seq![])
            } else {
                (GLWindowView { window_pos: IVec2 { x, y }, ..self }, seq![])
            },
            WindowEvent::Key(key, action) => match action {
                KeyAction::Press => if key == KEY_F11 {
                    self.switched(!self.fullscreen, monitor)
                } else {
                    (GLWindowView { keys_pressed: self.keys_pressed.insert(key), ..self }, seq![])
                },
                KeyAction::Release => (
                    GLWindowView { keys_pressed: self.keys_pressed.remove(key), ..self },
                    seq![],
                ),
                KeyAction::Repeat => (self, seq![]),
            },
            WindowEvent::Other => (self, seq![]),
        }
    }

    /// The window after the first `n` of `events`, with the actions that
    /// they ask for, in order.
    pub open spec fn handled_all(self, events: Seq<WindowEvent>, monitor: Monitor, n: int) -> (
        GLWindowView,
        Seq<WindowAction>,
    )
        decreases n,
    {
        if n <= 0 {
            (self, seq![])
        } else {
            let before = self.handled_all(events, monitor, n - 1);
            let step = before.0.handled(events[n - 1], monitor);
            (step.0, before.1 + step.1)
        }
    }
}

impl GLWindow {
    /// A window of this size at this position: not full screen, no key held
    /// down, and resized in its first frame.
    pub fn new(window_width: u32, window_height: u32, window_pos: IVec2) -> (window: GLWindow)
        ensures
            window@ == (GLWindowView {
                window_size: UVec2 { x: window_width, y: window_height },
                window_pos,
                fullscreen_size: UVec2 { x: 0, y: 0 },
                fullscreen_pos: IVec2 { x: 0, y: 0 },
                fullscreen: false,
                has_resized_this_frame: true,
                keys_pressed: Set::<i32>::empty(),
            }),
    {
        broadcast use group_hash_axioms;

        GLWindow {
            window_size: UVec2 { x: window_width, y: window_height },
            window_pos,
            fullscreen_size: UVec2 { x: 0, y: 0 },
            fullscreen_pos: IVec2 { x: 0, y: 0 },
            fullscreen: false,
            has_resized_this_frame: true,
            keys_pressed: HashSet::new(),
        }
    }

    /// The action that sets the viewport to the size of the window.
    pub fn update_viewport(&self) -> (action: WindowAction)
        ensures
            action == self@.viewport(),
    {
        let size = self.get_window_size();
        WindowAction::Viewport {
            width: #[verifier::truncate]
            (size.x as i32),
            height: #[verifier::truncate]
            (size.y as i32),
        }
    }

    /// Switches to the full screen on `monitor`, or back to the window.
    pub fn set_fullscreen_mode(&mut self, fullscreen: bool, monitor: Monitor) -> (actions: Vec<
        WindowAction,
    >)
        ensures
            (final(self)@, actions@) == old(self)@.switched(fullscreen, monitor),
    {
        let mut actions: Vec<WindowAction> = Vec::new();
        if fullscreen && !self.fullscreen {
            self.fullscreen_size = monitor.size;
            self.fullscreen_pos = monitor.pos;
            actions.push(WindowAction::EnterFullscreen { pos: monitor.pos, size: monitor.size });
        } else if self.fullscreen {
            actions.push(
                WindowAction::LeaveFullscreen { pos: self.window_pos, size: self.window_size },
            );
        }
        self.fullscreen = fullscreen;
        actions.push(self.update_viewport());
        assert(actions@ =~= old(self)@.switched(fullscreen, monitor).1);
        actions
    }

    /// Takes one event. `monitor` is the first monitor, for the case that
    /// the event makes the window fill the screen.
    pub fn handle_event(&mut self, event: WindowEvent, monitor: Monitor) -> (actions: Vec<
        WindowAction,
    >)
        ensures
            (final(self)@, actions@) == old(self)@.handled(event, monitor),
    {
        broadcast use group_hash_axioms;

        match event {
            WindowEvent::FramebufferSize(width, height) => {
                let size = UVec2 {
                    x: #[verifier::truncate]
                    (width as u32),
                    y: #[verifier::truncate]
                    (height as u32),
                };
                if self.fullscreen {
                    self.fullscreen_size = size;
                } else {
                    self.window_size = size;
                }
                let actions = vec![self.update_viewport()];
                self.has_resized_this_frame = true;
                actions
            },
            WindowEvent::Pos(x, y) => {
                if !self.fullscreen {
                    self.window_pos = IVec2 { x, y };
                }
                Vec::new()
            },
            WindowEvent::Key(key, action) => {
                match action {
                    KeyAction::Press => {
                        if key == KEY_F11 {
                            let mode = !self.fullscreen;
                            self.set_fullscreen_mode(mode, monitor)
                        } else {
                            self.keys_pressed.insert(key);
                            Vec::new()
                        }
                    },
                    KeyAction::Release => {
                        self.keys_pressed.remove(&key);
                        Vec::new()
                    },
                    KeyAction::Repeat => Vec::new(),
                }
            },
            WindowEvent::Other => Vec::new(),
        }
    }

    /// Takes the events of a frame, in order.
    pub fn handle_events(&mut self, events: &Vec<WindowEvent>, monitor: Monitor) -> (actions: Vec<
        WindowAction,
    >)
        ensures
            (final(self)@, actions@) == old(self)@.handled_all(
                events@,
                monitor,
                events@.len() as int,
            ),
    {
        let mut actions: Vec<WindowAction> = Vec::new();
        let mut i: usize = 0;
        while i < events.len()
            invariant
                i <= events@.len(),
                (self@, actions@) == old(self)@.handled_all(events@, monitor, i as int),
            decreases events@.len() - i,
        {
            let mut step = self.handle_event(events[i], monitor);
            actions.append(&mut step);
            i = i + 1;
        }
        actions
    }

    /// Starts a new frame: the window has not been resized in it yet.
    pub fn reset_deltas(&mut self)
        ensures
            final(self)@ == (GLWindowView { has_resized_this_frame: false, ..old(self)@ }),
    {
        self.has_resized_this_frame = false;
    }

    /// Whether the size changed since the deltas were last reset.
    pub fn has_resized_this_frame(&self) -> (resized: bool)
        ensures
            resized == self@.has_resized_this_frame,
    {
        self.has_resized_this_frame
    }

    /// The size that the window has at present: that of the full screen
    /// while it fills it, and else its own.
    pub fn get_window_size(&self) -> (size: UVec2)
        ensures
            size == self@.size(),
    {
        if self.fullscreen {
            self.fullscreen_size
        } else {
            self.window_size
        }
    }

    /// Whether the window fills the screen.
    pub fn is_fullscreen(&self) -> (fullscreen: bool)
        ensures
            fullscreen == self@.fullscreen,
    {
        self.fullscreen
    }

    /// Whether the key with this code is held down.
    pub fn has_key_pressed(&self, key: i32) -> (pressed: bool)
        ensures
            pressed == self@.keys_pressed.contains(key),
    {
        broadcast use group_hash_axioms;

        self.keys_pressed.contains(&key)
    }
}

} // verus!
