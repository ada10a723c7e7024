//! When the editor stops.
use vstd::prelude::*;

use super::{WindowEvent, Key};

verus! {

/// Whether the event loop goes on.
#[derive(Clone, Copy, Debug, PartialEq, Eq, Structural)]
pub enum Flow {
    Continue,
    Exit,
}

/// The decision of the event loop.
pub struct ControlFlow;

impl ControlFlow {
    /// The editor exits when the window is closed or when Escape changes
    /// state, and goes on otherwise.
    pub fn handle_event(event: &WindowEvent) -> (flow: Flow)
        ensures
            flow == match *event {
                WindowEvent::CloseRequested => Flow::Exit,
                WindowEvent::KeyboardInput { key: Some(Key::Escape), .. } => Flow::Exit,
                _ => Flow::Continue,
            },
    {
        match event {
            WindowEvent::CloseRequested => Flow::Exit,
            WindowEvent::KeyboardInput { key: Some(Key::Escape), .. } => Flow::Exit,
            _ => Flow::Continue,
        }
    }
}

} // verus!
