//! The keyboard and mouse state of the current frame.

use vstd::prelude::*;
pub use crate::types::mouse_button::MouseButton;

verus! {

/// A directional key, or `NoKey` while no such key is down.
#[derive(Clone, Copy, Debug, PartialEq, Eq, Structural)]
pub enum SpecialKey {
    NoKey,
    Up,
    Down,
    Left,
    Right,
}

/// What a mouse button did.
#[derive(Clone, Copy, Debug, PartialEq, Eq, Structural)]
pub enum MousePhase {
    Released,
    Pressed,
    Clicked,
    DoubleClicked,
}

/// The latest thing a mouse button did, or `NoEvent`.
#[derive(Clone, Copy, Debug, PartialEq, Eq, Structural)]
pub enum MouseEvent {
    NoEvent,
    LeftMouseUp,
    LeftMouseDown,
    LeftMouseClick,
    LeftMouseDoubleClick,
    MiddleMouseUp,
    MiddleMouseDown,
    MiddleMouseClick,
    MiddleMouseDoubleClick,
    RightMouseUp,
    RightMouseDown,
    RightMouseClick,
    RightMouseDoubleClick,
}

/// One event as the terminal reports it, before it is interpreted.
#[derive(Clone, Copy, Debug, PartialEq, Eq, Structural)]
pub enum RawEvent {
    /// A character key went down.
    Character(char),
    /// A directional key went down.
    Special(SpecialKey),
    /// A mouse button did something; the value is the terminal's button
    /// state mask.
    Mouse(u64),
    /// Anything else.
    Other,
}

/// The bit that stands for `phase` within a button's block of the mask.
pub open spec fn phase_bit(phase: MousePhase) -> nat {
    match phase {
        MousePhase::Released => 1,
        MousePhase::Pressed => 2,
        MousePhase::Clicked => 4,
        MousePhase::DoubleClicked => 8,
    }
}

/// The button state mask that reports `phase` of `button`: the left
/// button's masks are the phase bits themselves, the middle button's are 32
/// times and the right button's 1024 times as large.
pub open spec fn mask_of(button: MouseButton, phase: MousePhase) -> nat {
    match button {
        MouseButton::Left => phase_bit(phase),
        MouseButton::Middle => 32 * phase_bit(phase),
        MouseButton::Right => 1024 * phase_bit(phase),
    }
}

/// The event that says `phase` of `button`.
pub open spec fn event_of(button: MouseButton, phase: MousePhase) -> MouseEvent {
    match (button, phase) {
        (MouseButton::Left, MousePhase::Released) => MouseEvent::LeftMouseUp,
        (MouseButton::Left, MousePhase::Pressed) => MouseEvent::LeftMouseDown,
        (MouseButton::Left, MousePhase::Clicked) => MouseEvent::LeftMouseClick,
        (MouseButton::Left, MousePhase::DoubleClicked) => MouseEvent::LeftMouseDoubleClick,
        (MouseButton::Middle, MousePhase::Released) => MouseEvent::MiddleMouseUp,
        (MouseButton::Middle, MousePhase::Pressed) => MouseEvent::MiddleMouseDown,
        (MouseButton::Middle, MousePhase::Clicked) => MouseEvent::MiddleMouseClick,
        (MouseButton::Middle, MousePhase::DoubleClicked) => MouseEvent::MiddleMouseDoubleClick,
        (MouseButton::Right, MousePhase::Released) => MouseEvent::RightMouseUp,
        (MouseButton::Right, MousePhase::Pressed) => MouseEvent::RightMouseDown,
        (MouseButton::Right, MousePhase::Clicked) => MouseEvent::RightMouseClick,
        (MouseButton::Right, MousePhase::DoubleClicked) => MouseEvent::RightMouseDoubleClick,
    }
}

/// The event that a button state mask stands for: the fixed table of
/// twelve masks, and `NoEvent` for every other value.
pub open spec fn decoded(bstate: u64) -> MouseEvent {
    if bstate == 1 {
        MouseEvent::LeftMouseUp
    } else if bstate == 2 {
        MouseEvent::LeftMouseDown
    } else if bstate == 4 {
        MouseEvent::LeftMouseClick
    } else if bstate == 8 {
        MouseEvent::LeftMouseDoubleClick
    } else if bstate == 32 {
        MouseEvent::MiddleMouseUp
    } else if bstate == 64 {
        MouseEvent::MiddleMouseDown
    } else if bstate == 128 {
        MouseEvent::MiddleMouseClick
    } else if bstate == 256 {
        MouseEvent::MiddleMouseDoubleClick
    } else if bstate == 1024 {
        MouseEvent::RightMouseUp
    } else if bstate == 2048 {
        MouseEvent::RightMouseDown
    } else if bstate == 4096 {
        MouseEvent::RightMouseClick
    } else if bstate == 8192 {
        MouseEvent::RightMouseDoubleClick
    } else {
        MouseEvent::NoEvent
    }
}

impl MouseEvent {
    /// The button that the event is about, if it is an event at all.
    pub open spec fn spec_button(self) -> Option<MouseButton> {
        match self {
            MouseEvent::NoEvent => None,
            MouseEvent::LeftMouseUp
            | MouseEvent::LeftMouseDown
            | MouseEvent::LeftMouseClick
            | MouseEvent::LeftMouseDoubleClick => Some(MouseButton::Left),
            MouseEvent::MiddleMouseUp
            | MouseEvent::MiddleMouseDown
            | MouseEvent::MiddleMouseClick
            | MouseEvent::MiddleMouseDoubleClick => Some(MouseButton::Middle),
            MouseEvent::RightMouseUp
            | MouseEvent::RightMouseDown
            | MouseEvent::RightMouseClick
            | MouseEvent::RightMouseDoubleClick => Some(MouseButton::Right),
        }
    }

    /// What the button did, if the event is an event at all.
    pub open spec fn spec_phase(self) -> Option<MousePhase> {
        match self {
            MouseEvent::NoEvent => None,
            MouseEvent::LeftMouseUp
            | MouseEvent::MiddleMouseUp
            | MouseEvent::RightMouseUp => Some(MousePhase::Released),
            MouseEvent::LeftMouseDown
            | MouseEvent::MiddleMouseDown
            | MouseEvent::RightMouseDown => Some(MousePhase::Pressed),
            MouseEvent::LeftMouseClick
            | MouseEvent::MiddleMouseClick
            | MouseEvent::RightMouseClick => Some(MousePhase::Clicked),
            MouseEvent::LeftMouseDoubleClick
            | MouseEvent::MiddleMouseDoubleClick
            | MouseEvent::RightMouseDoubleClick => Some(MousePhase::DoubleClicked),
        }
    }

    /// The button state mask that stands for the event; zero for `NoEvent`.
    pub open spec fn spec_code(self) -> nat {
        match (self.spec_button(), self.spec_phase()) {
            (Some(button), Some(phase)) => mask_of(button, phase),
            _ => 0,
        }
    }

    /// Reads a button state mask.
    pub fn decode(bstate: u64) -> (event: MouseEvent)
        ensures
            event == decoded(bstate),
    {
        match bstate {
            1 => MouseEvent::LeftMouseUp,
            2 => MouseEvent::LeftMouseDown,
            4 => MouseEvent::LeftMouseClick,
            8 => MouseEvent::LeftMouseDoubleClick,
            32 => MouseEvent::MiddleMouseUp,
            64 => MouseEvent::MiddleMouseDown,
            128 => MouseEvent::MiddleMouseClick,
            256 => MouseEvent::MiddleMouseDoubleClick,
            1024 => MouseEvent::RightMouseUp,
            2048 => MouseEvent::RightMouseDown,
            4096 => MouseEvent::RightMouseClick,
            8192 => MouseEvent::RightMouseDoubleClick,
            _ => MouseEvent::NoEvent,
        }
    }

    /// The event that says `phase` of `button`.
    pub fn from_parts(button: MouseButton, phase: MousePhase) -> (event: MouseEvent)
        ensures
            event == event_of(button, phase),
    {
        match button {
            MouseButton::Left => match phase {
                MousePhase::Released => MouseEvent::LeftMouseUp,
                MousePhase::Pressed => MouseEvent::LeftMouseDown,
                MousePhase::Clicked => MouseEvent::LeftMouseClick,
                MousePhase::DoubleClicked => MouseEvent::LeftMouseDoubleClick,
            },
            MouseButton::Middle => match phase {
                MousePhase::Released => MouseEvent::MiddleMouseUp,
                MousePhase::Pressed => MouseEvent::MiddleMouseDown,
                MousePhase::Clicked => MouseEvent::MiddleMouseClick,
                MousePhase::DoubleClicked => MouseEvent::MiddleMouseDoubleClick,
            },
            MouseButton::Right => match phase {
                MousePhase::Released => MouseEvent::RightMouseUp,
                MousePhase::Pressed => MouseEvent::RightMouseDown,
                MousePhase::Clicked => MouseEvent::RightMouseClick,
                MousePhase::DoubleClicked => MouseEvent::RightMouseDoubleClick,
            },
        }
    }

    /// The button that the event is about, if it is an event at all.
    pub fn button(&self) -> (button: Option<MouseButton>)
        ensures
            button == self.spec_button(),
    {
        match self {
            MouseEvent::NoEvent => None,
            MouseEvent::LeftMouseUp
            | MouseEvent::LeftMouseDown
            | MouseEvent::LeftMouseClick
            | MouseEvent::LeftMouseDoubleClick => Some(MouseButton::Left),
            MouseEvent::MiddleMouseUp
            | MouseEvent::MiddleMouseDown
            | MouseEvent::MiddleMouseClick
            | MouseEvent::MiddleMouseDoubleClick => Some(MouseButton::Middle),
            MouseEvent::RightMouseUp
            | MouseEvent::RightMouseDown
            | MouseEvent::RightMouseClick
            | MouseEvent::RightMouseDoubleClick => Some(MouseButton::Right),
        }
    }

    /// What the button did, if the event is an event at all.
    pub fn phase(&self) -> (phase: Option<MousePhase>)
        ensures
            phase == self.spec_phase(),
    {
        match self {
            MouseEvent::NoEvent => None,
            MouseEvent::LeftMouseUp
            | MouseEvent::MiddleMouseUp
            | MouseEvent::RightMouseUp => Some(MousePhase::Released),
            MouseEvent::LeftMouseDown
            | MouseEvent::MiddleMouseDown
            | MouseEvent::RightMouseDown => Some(MousePhase::Pressed),
            MouseEvent::LeftMouseClick
            | MouseEvent::MiddleMouseClick
            | MouseEvent::RightMouseClick => Some(MousePhase::Clicked),
            MouseEvent::LeftMouseDoubleClick
            | MouseEvent::MiddleMouseDoubleClick
            | MouseEvent::RightMouseDoubleClick => Some(MousePhase::DoubleClicked),
        }
    }

    /// The button state mask that stands for the event; zero for `NoEvent`.
    pub fn code(&self) -> (mask: u64)
        ensures
            mask == self.spec_code(),
    {
        match self {
            MouseEvent::NoEvent => 0,
            MouseEvent::LeftMouseUp => 1,
            MouseEvent::LeftMouseDown => 2,
            MouseEvent::LeftMouseClick => 4,
            MouseEvent::LeftMouseDoubleClick => 8,
            MouseEvent::MiddleMouseUp => 32,
            MouseEvent::MiddleMouseDown => 64,
            MouseEvent::MiddleMouseClick => 128,
            MouseEvent::MiddleMouseDoubleClick => 256,
            MouseEvent::RightMouseUp => 1024,
            MouseEvent::RightMouseDown => 2048,
            MouseEvent::RightMouseClick => 4096,
            MouseEvent::RightMouseDoubleClick => 8192,
        }
    }
}

/// Every mask of the table reads as the button and phase it was made from.
pub proof fn lemma_decode_table(button: MouseButton, phase: MousePhase)
    ensures
        mask_of(button, phase) <= u64::MAX,
        decoded(mask_of(button, phase) as u64) == event_of(button, phase),
        event_of(button, phase).spec_button() == Some(button),
        event_of(button, phase).spec_phase() == Some(phase),
        event_of(button, phase).spec_code() == mask_of(button, phase),
{
}

/// A mask reads as an event exactly when it is in the table, and then the
/// event's own mask is the one that was read; every other mask reads as
/// `NoEvent`.
pub proof fn lemma_decode_round_trip(bstate: u64)
    ensures
        decoded(bstate) != MouseEvent::NoEvent <==> exists|button: MouseButton, phase: MousePhase|
            mask_of(button, phase) == bstate,
        decoded(bstate) != MouseEvent::NoEvent ==> decoded(bstate).spec_code() == bstate,
{
    let event = decoded(bstate);
    if event != MouseEvent::NoEvent {
        let button = event.spec_button().unwrap();
        let phase = event.spec_phase().unwrap();
        assert(mask_of(button, phase) == bstate);
    }
    if exists|button: MouseButton, phase: MousePhase| mask_of(button, phase) == bstate {
        let (button, phase) = choose|button: MouseButton, phase: MousePhase|
            mask_of(button, phase) == bstate;
        lemma_decode_table(button, phase);
    }
}

/// The state that an [`Input`] holds.
pub struct InputState {
    /// The character key that is down, if any.
    pub char_key: Option<char>,
    /// The directional key that is down, or `SpecialKey::NoKey`.
    pub special_key: SpecialKey,
    /// The latest mouse event, or `MouseEvent::NoEvent`.
    pub mouse_event: MouseEvent,
}

/// The state that follows `state` once one polling cycle has brought `raw`.
///
/// A key is down only in the cycle that reports it: whatever else the cycle
/// brings, or nothing at all, puts the keys back to neutral. The mouse event
/// stays until another mouse event replaces it.
pub open spec fn after_event(state: InputState, raw: Option<RawEvent>) -> InputState {
    match raw {
        Some(RawEvent::Character(c)) => InputState {
            char_key: Some(c),
            special_key: SpecialKey::NoKey,
            mouse_event: state.mouse_event,
        },
        Some(RawEvent::Special(direction)) => InputState {
            char_key: None,
            special_key: direction,
            mouse_event: state.mouse_event,
        },
        Some(RawEvent::Mouse(bstate)) => InputState {
            char_key: None,
            special_key: SpecialKey::NoKey,
            mouse_event: decoded(bstate),
        },
        Some(RawEvent::Other) | None => InputState {
            char_key: None,
            special_key: SpecialKey::NoKey,
            mouse_event: state.mouse_event,
        },
    }
}

/// The input manager: what the keyboard and the mouse did in this frame.
pub struct Input {
    char_key_down: Option<char>,
    special_key_down: SpecialKey,
    mouse_event: MouseEvent,
}

impl View for Input {
    type V = InputState;

    closed spec fn view(&self) -> InputState {
        InputState {
            char_key: self.char_key_down,
            special_key: self.special_key_down,
            mouse_event: self.mouse_event,
        }
    }
}

impl Input {
    /// An input manager with no key down and no mouse event.
    pub fn new() -> (input: Input)
        ensures
            input@ == (InputState {
                char_key: None,
                special_key: SpecialKey::NoKey,
                mouse_event: MouseEvent::NoEvent,
            }),
    {
        Input {
            char_key_down: None,
            special_key_down: SpecialKey::NoKey,
            mouse_event: MouseEvent::NoEvent,
        }
    }

    /// Takes in what one polling cycle brought: an event, or nothing.
    pub fn query(&mut self, raw: Option<RawEvent>)
        ensures
            final(self)@ == after_event(old(self)@, raw),
    {
        match raw {
            Some(RawEvent::Mouse(bstate)) => {
                self.mouse_event = MouseEvent::decode(bstate);
                self.char_key_down = None;
                self.special_key_down = SpecialKey::NoKey;
            },
            Some(RawEvent::Character(c)) => {
                self.char_key_down = Some(c);
                self.special_key_down = SpecialKey::NoKey;
            },
            Some(RawEvent::Special(direction)) => {
                self.char_key_down = None;
                self.special_key_down = direction;
            },
            Some(RawEvent::Other) => {
                self.char_key_down = None;
                self.special_key_down = SpecialKey::NoKey;
            },
            None => {
                self.char_key_down = None;
                self.special_key_down = SpecialKey::NoKey;
            },
        }
    }

    /// Forgets the latest mouse event.
    pub fn clear_mouse_event(&mut self)
        ensures
            final(self)@ == (InputState { mouse_event: MouseEvent::NoEvent, ..old(self)@ }),
    {
        self.mouse_event = MouseEvent::NoEvent;
    }

    /// The character key that is down, or nothing while none is.
    pub fn get_char_key_down(&self) -> (key: Option<char>)
        ensures
            key == self@.char_key,
    {
        self.char_key_down
    }

    /// Whether the character key `key` is down.
    pub fn is_char_key_down(&self, key: char) -> (down: bool)
        ensures
            down == (self@.char_key == Some(key)),
    {
        match self.char_key_down {
            Some(c) => c == key,
            None => false,
        }
    }

    /// Whether the character key `key` is not down.
    pub fn is_char_key_up(&self, key: char) -> (up: bool)
        ensures
            up == (self@.char_key != Some(key)),
    {
        !self.is_char_key_down(key)
    }

    /// The directional key that is down, or `SpecialKey::NoKey`.
    pub fn get_special_key_down(&self) -> (key: SpecialKey)
        ensures
            key == self@.special_key,
    {
        self.special_key_down
    }

    /// Whether the directional key `key` is down.
    pub fn is_special_key_down(&self, key: SpecialKey) -> (down: bool)
        ensures
            down == (self@.special_key == key),
    {
        key == self.special_key_down
    }

    /// Whether the directional key `key` is not down.
    pub fn is_special_key_up(&self, key: SpecialKey) -> (up: bool)
        ensures
            up == (self@.special_key != key),
    {
        key != self.special_key_down
    }

    /// The latest mouse event, or `MouseEvent::NoEvent`.
    pub fn get_mouse_event(&self) -> (event: MouseEvent)
        ensures
            event == self@.mouse_event,
    {
        self.mouse_event
    }

    /// Whether the latest mouse event is `mouse_button` being pressed.
    pub fn is_mouse_down(&self, mouse_button: MouseButton) -> (down: bool)
        ensures
            down == (self@.mouse_event == event_of(mouse_button, MousePhase::Pressed)),
    {
        self.mouse_event == MouseEvent::from_parts(mouse_button, MousePhase::Pressed)
    }

    /// Whether the latest mouse event is `mouse_button` being released.
    pub fn is_mouse_up(&self, mouse_button: MouseButton) -> (up: bool)
        ensures
            up == (self@.mouse_event == event_of(mouse_button, MousePhase::Released)),
    {
        self.mouse_event == MouseEvent::from_parts(mouse_button, MousePhase::Released)
    }

    /// Whether the latest mouse event is a click of `mouse_button`.
    pub fn on_mouse_clicked(&self, mouse_button: MouseButton) -> (clicked: bool)
        ensures
            clicked == (self@.mouse_event == event_of(mouse_button, MousePhase::Clicked)),
    {
        self.mouse_event == MouseEvent::from_parts(mouse_button, MousePhase::Clicked)
    }
}

/// After any polling cycle at most one kind of key is down: a character key
/// and a directional key are never down together.
pub proof fn lemma_keys_exclusive(state: InputState, raw: Option<RawEvent>)
    ensures
        after_event(state, raw).char_key is None || after_event(state, raw).special_key
            == SpecialKey::NoKey,
{
}

/// A key is down only in the cycle that reports it: a cycle that brings no
/// key event leaves no key down, and leaves the mouse event as it was unless
/// it brings a mouse event.
pub proof fn lemma_keys_reset(state: InputState, raw: Option<RawEvent>)
    ensures
        !(raw matches Some(RawEvent::Character(_))) ==> after_event(state, raw).char_key is None,
        !(raw matches Some(RawEvent::Special(_))) ==> after_event(state, raw).special_key
            == SpecialKey::NoKey,
        !(raw matches Some(RawEvent::Mouse(_))) ==> after_event(state, raw).mouse_event
            == state.mouse_event,
{
}

} // verus!
