//! The keys that turn the camera.
use vstd::prelude::*;

use super::{WindowEvent, Key, KeyState};

verus! {

/// Whether the keys that turn the camera are held down.
#[derive(Clone, Copy, Debug, PartialEq, Eq, Structural)]
pub struct InputState {
    pub a: bool,
    pub d: bool,
}

impl InputState {
    /// No key held down.
    pub fn new() -> (s: Self)
        ensures
            s == (InputState { a: false, d: false }),
    {
        InputState { a: false, d: false }
    }

    /// A key event on `A` or `D` records whether that key is now down; other
    /// events change nothing.
    pub fn handle_event(&mut self, event: &WindowEvent)
        ensures
            *final(self) == match *event {
                WindowEvent::KeyboardInput { state, key: Some(Key::A) } => InputState {
                    a: state == KeyState::Pressed,
                    ..*old(self)
                },
                WindowEvent::KeyboardInput { state, key: Some(Key::D) } => InputState {
                    d: state == KeyState::Pressed,
                    ..*old(self)
                },
                _ => *old(self),
            },
    {
        if let WindowEvent::KeyboardInput { state, key } = event {
            let pressed = match state {
                KeyState::Pressed => true,
                KeyState::Released => false,
            };
            match key {
                Some(Key::A) => {
                    self.a = pressed;
                },
                Some(Key::D) => {
                    self.d = pressed;
                },
                _ => {},
            }
        }
    }
}

} // verus!
