//! The window: its size, and a resize that waits for the swapchain.
use vstd::prelude::*;

use super::WindowEvent;

verus! {

/// A size in physical pixels.
#[derive(Clone, Copy, Debug, PartialEq, Eq, Structural)]
pub struct WindowSize {
    pub w: u32,
    pub h: u32,
}

impl WindowSize {
    /// The window has no area in either direction.
    pub fn is_zero(self) -> (b: bool)
        ensures
            b == (self.w == 0 && self.h == 0),
    {
        self.w == 0 && self.h == 0
    }

    /// The size as a `(width, height)` pair.
    pub fn to_tuple(self) -> (t: (u32, u32))
        ensures
            t == (self.w, self.h),
    {
        (self.w, self.h)
    }
}

/// What creating a window needs.
#[derive(Clone, Debug)]
pub struct Params {
    pub title: String,
    pub size: WindowSize,
    pub min_size: WindowSize,
    pub decorations: bool,
}

/// The position that centers a window of `size` on a monitor.
pub fn centered_position(monitor: (u32, u32), size: WindowSize) -> (pos: (u32, u32))
    requires
        size.w <= monitor.0,
        size.h <= monitor.1,
    ensures
        pos.0 == (monitor.0 - size.w) / 2,
        pos.1 == (monitor.1 - size.h) / 2,
{
    ((monitor.0 - size.w) / 2, (monitor.1 - size.h) / 2)
}

/// The window's title and sizes: the size in use, and the size it was last
/// resized to, which takes effect once the swapchain has been rebuilt.
pub struct Window {
    window_title: String,
    window_size: WindowSize,
    new_window_size: WindowSize,
}

impl Window {
    pub closed spec fn spec_title(&self) -> Seq<char> {
        self.window_title@
    }

    pub closed spec fn spec_size(&self) -> WindowSize {
        self.window_size
    }

    pub closed spec fn spec_new_size(&self) -> WindowSize {
        self.new_window_size
    }

    /// A window as created: in use at `size`, with `min_size` as the pending
    /// size.
    pub fn create(params: &Params) -> (w: Self)
        ensures
            w.spec_title() == params.title@,
            w.spec_size() == params.size,
            w.spec_new_size() == params.min_size,
    {
        Window {
            window_title: params.title.clone(),
            window_size: params.size,
            new_window_size: params.min_size,
        }
    }

    pub fn title(&self) -> (t: &str)
        ensures
            t@ == self.spec_title(),
    {
        self.window_title.as_str()
    }

    pub fn size(&self) -> (s: WindowSize)
        ensures
            s == self.spec_size(),
    {
        self.window_size
    }

    pub fn new_size(&self) -> (s: WindowSize)
        ensures
            s == self.spec_new_size(),
    {
        self.new_window_size
    }

    /// A resize event sets the pending size; other events change nothing.
    pub fn handle_event(&mut self, event: &WindowEvent)
        ensures
            final(self).spec_title() == old(self).spec_title(),
            final(self).spec_size() == old(self).spec_size(),
            final(self).spec_new_size() == match *event {
                WindowEvent::Resized(size) => size,
                _ => old(self).spec_new_size(),
            },
    {
        if let WindowEvent::Resized(size) = event {
            self.new_window_size = *size;
        }
    }

    /// Takes the pending size into use, once the swapchain has handled the
    /// resize.
    pub fn handled_resize(&mut self)
        ensures
            final(self).spec_title() == old(self).spec_title(),
            final(self).spec_size() == old(self).spec_new_size(),
            final(self).spec_new_size() == old(self).spec_new_size(),
    {
        self.window_size = self.new_window_size;
    }
}

} // verus!
