//! Input state: per-key and per-button state machines, pointer
//! position, wheel delta and the configurable update period.
//!
//! Key identifiers are indices below [`NUM_KEYS`] into the host's fixed
//! key table; the windowing layer maps its own key codes to these
//! indices and back.

use vstd::prelude::*;
use crate::fixed::NUM_LIMIT;
use crate::geom::Vector;

verus! {

/// How many keys the host tracks.
pub const NUM_KEYS: usize = 158;

/// The update period a fresh snapshot starts with, in microseconds
/// (sixty updates per second).
pub const DEFAULT_UPDATE_RATE_US: u64 = 16666;

/// The current state of a button.
#[derive(Clone, Copy, Debug, PartialEq, Eq, Structural)]
pub enum ButtonState {
    /// The button was activated this frame.
    Pressed,
    /// The button is active but was not activated this frame.
    Held,
    /// The button was released this frame.
    Released,
    /// The button is not active but was not released this frame.
    NotPressed,
}

/// True when the button is active.
pub open spec fn is_down_spec(s: ButtonState) -> bool {
    s == ButtonState::Pressed || s == ButtonState::Held
}

/// The state a button moves to when the native layer reports it down
/// or up.
pub open spec fn button_update_spec(s: ButtonState, new: bool) -> ButtonState {
    match (is_down_spec(s), new) {
        (false, false) => ButtonState::NotPressed,
        (false, true) => ButtonState::Pressed,
        (true, false) => ButtonState::Released,
        (true, true) => ButtonState::Held,
    }
}

impl ButtonState {
    /// Feeds one native down/up report into the state machine.
    pub fn update(&mut self, new: bool)
        ensures
            *final(self) == button_update_spec(*old(self), new),
    {
        let next: ButtonState = match (self.is_down(), new) {
            (false, false) => ButtonState::NotPressed,
            (false, true) => ButtonState::Pressed,
            (true, false) => ButtonState::Released,
            (true, true) => ButtonState::Held,
        };
        *self = next;
    }

    /// Determine if the button is either `Pressed` or `Held`.
    pub fn is_down(&self) -> (r: bool)
        ensures
            r == is_down_spec(*self),
    {
        match *self {
            ButtonState::Pressed | ButtonState::Held => true,
            ButtonState::Released | ButtonState::NotPressed => false,
        }
    }
}

/// A mouse button as the native layer names it.
#[derive(Clone, Copy, Debug, PartialEq, Eq, Structural)]
pub enum MouseButton {
    Left,
    Middle,
    Right,
    /// Any further button; the host does not track these.
    Other,
}

/// The slot a tracked mouse button occupies in the snapshot, if any.
pub open spec fn mouse_slot(b: MouseButton) -> Option<int> {
    match b {
        MouseButton::Left => Some(0int),
        MouseButton::Middle => Some(1int),
        MouseButton::Right => Some(2int),
        MouseButton::Other => None,
    }
}

/// A native input occurrence, already translated to plain values by the
/// windowing layer (pointer positions are in camera coordinates).
#[derive(Clone, Copy, Debug)]
pub enum Event {
    /// The window gained or lost focus.
    FocusChanged(bool),
    /// A key went down or up.
    KeyboardInput { key: usize, down: bool },
    /// A character was typed.
    ReceivedCharacter(char),
    /// The pointer moved to the given position.
    PointerMoved(Vector),
    /// The pointer entered the window.
    PointerEntered,
    /// The pointer left the window.
    PointerExited,
    /// The wheel scrolled by the given delta.
    ScrollInput(Vector),
    /// A mouse button went down or up.
    PointerInput { button: MouseButton, down: bool },
    /// The window was resized.
    Resized(Vector),
}

/// True when the event's key index, if it has one, is within the key
/// table.
pub open spec fn event_key_in_range(e: Event) -> bool {
    match e {
        Event::KeyboardInput { key, down } => key < NUM_KEYS,
        _ => true,
    }
}

/// The abstract state of an [`InputSnapshot`].
pub struct SnapshotView {
    pub keyboard: Seq<ButtonState>,
    pub mouse: Seq<ButtonState>,
    pub mouse_pos: Vector,
    pub wheel_delta: Vector,
    pub winsize: Vector,
    pub update_rate_us: u64,
}

/// The input and timing state one frame observes.
pub struct InputSnapshot {
    /// Per-key state, indexed by key identifier.
    pub keyboard: Vec<ButtonState>,
    /// Left, middle and right mouse button state.
    pub mouse: Vec<ButtonState>,
    /// Pointer position in camera coordinates.
    pub mouse_pos: Vector,
    /// Last wheel delta.
    pub wheel_delta: Vector,
    /// Window size.
    pub winsize: Vector,
    /// The configured update period, in microseconds.
    pub update_rate_us: u64,
}

impl View for InputSnapshot {
    type V = SnapshotView;

    open spec fn view(&self) -> SnapshotView {
        SnapshotView {
            keyboard: self.keyboard@,
            mouse: self.mouse@,
            mouse_pos: self.mouse_pos,
            wheel_delta: self.wheel_delta,
            winsize: self.winsize,
            update_rate_us: self.update_rate_us,
        }
    }
}

/// What applying one native occurrence does to the snapshot.
pub open spec fn process_event_spec(s: SnapshotView, e: Event) -> SnapshotView {
    match e {
        Event::KeyboardInput { key, down } => SnapshotView {
            keyboard: s.keyboard.update(
                key as int,
                button_update_spec(s.keyboard[key as int], down),
            ),
            ..s
        },
        Event::PointerMoved(p) => SnapshotView { mouse_pos: p, ..s },
        Event::PointerInput { button, down } => match mouse_slot(button) {
            Some(i) => SnapshotView {
                mouse: s.mouse.update(i, button_update_spec(s.mouse[i], down)),
                ..s
            },
            None => s,
        },
        Event::ScrollInput(v) => SnapshotView { wheel_delta: v, ..s },
        Event::Resized(v) => SnapshotView { winsize: v, ..s },
        _ => s,
    }
}

impl InputSnapshot {
    /// Structure every frame relies on: full key and button tables and
    /// a positive, bounded update period.
    pub open spec fn wf(self) -> bool {
        &&& self.keyboard@.len() == NUM_KEYS
        &&& self.mouse@.len() == 3
        &&& 1 <= self.update_rate_us <= NUM_LIMIT
    }

    /// A fresh snapshot: nothing pressed, pointer at the origin, the
    /// default update period, and the given window size.
    pub fn new(winsize: Vector) -> (s: InputSnapshot)
        ensures
            s.wf(),
            s@.winsize == winsize,
            s@.update_rate_us == DEFAULT_UPDATE_RATE_US,
            forall|i: int| 0 <= i < NUM_KEYS ==> s@.keyboard[i] == ButtonState::NotPressed,
            forall|i: int| 0 <= i < 3 ==> s@.mouse[i] == ButtonState::NotPressed,
            s@.mouse_pos == (Vector { x: 0, y: 0 }),
            s@.wheel_delta == (Vector { x: 0, y: 0 }),
    {
        let mut keyboard: Vec<ButtonState> = Vec::new();
        let mut i: usize = 0;
        while i < NUM_KEYS
            invariant
                i <= NUM_KEYS,
                keyboard@.len() == i,
                forall|j: int| 0 <= j < i ==> keyboard@[j] == ButtonState::NotPressed,
            decreases NUM_KEYS - i,
        {
            keyboard.push(ButtonState::NotPressed);
            i = i + 1;
        }
        let mut mouse: Vec<ButtonState> = Vec::new();
        mouse.push(ButtonState::NotPressed);
        mouse.push(ButtonState::NotPressed);
        mouse.push(ButtonState::NotPressed);
        InputSnapshot {
            keyboard,
            mouse,
            mouse_pos: Vector { x: 0, y: 0 },
            wheel_delta: Vector { x: 0, y: 0 },
            winsize,
            update_rate_us: DEFAULT_UPDATE_RATE_US,
        }
    }

    /// Applies one native occurrence to the snapshot.
    pub fn process_event(&mut self, e: &Event)
        requires
            old(self).wf(),
            event_key_in_range(*e),
        ensures
            final(self).wf(),
            final(self)@ == process_event_spec(old(self)@, *e),
    {
        match e {
            Event::KeyboardInput { key, down } => {
                let mut st: ButtonState = self.keyboard[*key];
                st.update(*down);
                self.keyboard.set(*key, st);
            },
            Event::PointerMoved(p) => {
                self.mouse_pos = *p;
            },
            Event::PointerInput { button, down } => {
                let slot: usize = match button {
                    MouseButton::Left => 0,
                    MouseButton::Middle => 1,
                    MouseButton::Right => 2,
                    MouseButton::Other => {
                        return ;
                    },
                };
                let mut st: ButtonState = self.mouse[slot];
                st.update(*down);
                self.mouse.set(slot, st);
            },
            Event::ScrollInput(v) => {
                self.wheel_delta = *v;
            },
            Event::Resized(v) => {
                self.winsize = *v;
            },
            _ => {},
        }
    }
}

} // verus!
