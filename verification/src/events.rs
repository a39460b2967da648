//! Translation of native input occurrences into the record shape the
//! script's `event` callback receives.
//!
//! The record reports the occurrence kind and, where the occurrence
//! carries data, the snapshot state as of this frame: the
//! snapshot is applied first, then translated, so a key record carries
//! the key's state after the press or release it reports.

use vstd::prelude::*;
use crate::input::{
    event_key_in_range, mouse_slot, ButtonState, Event, InputSnapshot, MouseButton, SnapshotView,
};

verus! {

/// The value passed to the script's `event` callback, one variant per
/// occurrence kind.
#[derive(Clone, Copy, Debug, PartialEq, Eq, Structural)]
pub enum EventRecord {
    /// The window gained focus.
    Focused,
    /// The window lost focus.
    Unfocused,
    /// A key went down or up; `state` is its state after the change.
    Key { key: usize, state: ButtonState },
    /// A character was typed.
    Typed { character: char },
    /// The pointer moved; the coordinates are the snapshot's pointer
    /// position.
    MouseMoved { x: i64, y: i64 },
    /// The pointer entered the window.
    MouseEntered,
    /// The pointer left the window.
    MouseExited,
    /// The wheel scrolled; the coordinates are the snapshot's delta.
    MouseWheel { x: i64, y: i64 },
    /// A mouse button went down or up; `state` is its state after the
    /// change.
    Button { button: MouseButton, down: bool, state: ButtonState },
}

/// Which record, if any, an occurrence produces against a given
/// snapshot.  Occurrences the script is not told about (such as a
/// resize, or a button the host does not track) produce none.
pub open spec fn translate_event_spec(e: Event, s: SnapshotView) -> Option<EventRecord> {
    match e {
        Event::FocusChanged(f) => Some(
            if f {
                EventRecord::Focused
            } else {
                EventRecord::Unfocused
            },
        ),
        Event::KeyboardInput { key, down } => Some(
            EventRecord::Key { key, state: s.keyboard[key as int] },
        ),
        Event::ReceivedCharacter(c) => Some(EventRecord::Typed { character: c }),
        Event::PointerMoved(_) => Some(
            EventRecord::MouseMoved { x: s.mouse_pos.x, y: s.mouse_pos.y },
        ),
        Event::PointerEntered => Some(EventRecord::MouseEntered),
        Event::PointerExited => Some(EventRecord::MouseExited),
        Event::ScrollInput(_) => Some(
            EventRecord::MouseWheel { x: s.wheel_delta.x, y: s.wheel_delta.y },
        ),
        Event::PointerInput { button, down } => match mouse_slot(button) {
            Some(i) => Some(EventRecord::Button { button, down, state: s.mouse[i] }),
            None => None,
        },
        Event::Resized(_) => None,
    }
}

/// Builds the record for one occurrence from the current snapshot.
pub fn translate_event(e: &Event, s: &InputSnapshot) -> (r: Option<EventRecord>)
    requires
        s.wf(),
        event_key_in_range(*e),
    ensures
        r == translate_event_spec(*e, s@),
{
    match e {
        Event::FocusChanged(f) => Some(
            if *f {
                EventRecord::Focused
            } else {
                EventRecord::Unfocused
            },
        ),
        Event::KeyboardInput { key, down } => Some(
            EventRecord::Key { key: *key, state: key_state(s, *key) },
        ),
        Event::ReceivedCharacter(c) => Some(EventRecord::Typed { character: *c }),
        Event::PointerMoved(_) => Some(
            EventRecord::MouseMoved { x: s.mouse_pos.x, y: s.mouse_pos.y },
        ),
        Event::PointerEntered => Some(EventRecord::MouseEntered),
        Event::PointerExited => Some(EventRecord::MouseExited),
        Event::ScrollInput(_) => Some(
            EventRecord::MouseWheel { x: s.wheel_delta.x, y: s.wheel_delta.y },
        ),
        Event::PointerInput { button, down } => {
            let slot: usize = match button {
                MouseButton::Left => 0,
                MouseButton::Middle => 1,
                MouseButton::Right => 2,
                MouseButton::Other => {
                    return None;
                },
            };
            Some(EventRecord::Button { button: *button, down: *down, state: s.mouse[slot] })
        },
        Event::Resized(_) => None,
    }
}

/// Reads one key's state out of the snapshot.
fn key_state(s: &InputSnapshot, key: usize) -> (r: ButtonState)
    requires
        s.wf(),
        key < crate::input::NUM_KEYS,
    ensures
        r == s@.keyboard[key as int],
{
    s.keyboard[key]
}

} // verus!
