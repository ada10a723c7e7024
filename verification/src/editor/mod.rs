//! The interactive editor: the decisions it takes on window and keyboard
//! events, and its bookkeeping of frames and material edits.
use vstd::prelude::*;

use crate::text::{chars_of, string_from_chars};

pub mod control_flow;
pub mod frame_state;
pub mod input_state;
pub mod material_editor;
pub mod window;

verus! {

/// What starting the editor needs.
#[derive(Clone, Debug)]
pub struct Args {
    /// Path of the `.glb` scene to edit.
    pub glb_scene: String,
}

/// The keys that the editor reads.
#[derive(Clone, Copy, Debug, PartialEq, Eq, Structural)]
pub enum Key {
    A,
    D,
    Escape,
    Other,
}

/// Whether a key went down or up.
#[derive(Clone, Copy, Debug, PartialEq, Eq, Structural)]
pub enum KeyState {
    Pressed,
    Released,
}

/// The window events that the editor reads.
#[derive(Clone, Copy, Debug, PartialEq, Eq, Structural)]
pub enum WindowEvent {
    /// The user asked to close the window.
    CloseRequested,
    /// The window was resized.
    Resized(window::WindowSize),
    /// A key changed state; `key` is `None` when it has no virtual key code.
    KeyboardInput { state: KeyState, key: Option<Key> },
    /// Any other event.
    Other,
}

/// The recent values of a measurement, newest first: the value pushed in
/// front, and the oldest dropped when more than `max` are held.
pub open spec fn pushed_recent<T>(values: Seq<T>, value: T, max: nat) -> Seq<T> {
    let pushed = seq![value] + values;
    if pushed.len() > max {
        pushed.subrange(0, pushed.len() - 1)
    } else {
        pushed
    }
}

/// Pushes a measurement in front of the recent ones and drops the oldest when
/// more than `max` are held.
pub fn push_recent<T>(values: &mut std::collections::VecDeque<T>, value: T, max: usize)
    ensures
        final(values)@ == pushed_recent(old(values)@, value, max as nat),
{
    values.push_front(value);
    if values.len() > max {
        values.pop_back();
    }
}

/// Law: a history that holds no more than `max` values keeps holding no more
/// than `max`, newest first: the pushed value, then the others in their order.
pub proof fn lemma_push_recent_bounded<T>(values: Seq<T>, value: T, max: nat)
    requires
        values.len() <= max,
        max > 0,
    ensures
        pushed_recent(values, value, max).len() <= max,
        pushed_recent(values, value, max)[0] == value,
        forall|i: int|
            0 < i < pushed_recent(values, value, max).len() ==> #[trigger] pushed_recent(
                values,
                value,
                max,
            )[i] == values[i - 1],
{
}

/// The name of the file that a saved image is written to: the name the user
/// typed, or the time stamp when none was typed, with the extension `.png`.
pub open spec fn spec_image_file_name(image_name: Seq<char>, timestamp: Seq<char>) -> Seq<char> {
    (if image_name.len() == 0 {
        timestamp
    } else {
        image_name
    }) + seq!['.', 'p', 'n', 'g']
}

/// The name of the file that a saved image is written to.
pub fn image_file_name(image_name: &str, timestamp: &str) -> (file_name: String)
    ensures
        file_name@ == spec_image_file_name(image_name@, timestamp@),
{
    let mut chars = if image_name.is_empty() {
        chars_of(timestamp)
    } else {
        chars_of(image_name)
    };
    chars.push('.');
    chars.push('p');
    chars.push('n');
    chars.push('g');
    string_from_chars(chars.as_slice())
}

} // verus!
