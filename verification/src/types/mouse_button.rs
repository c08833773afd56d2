//! The buttons of a mouse.

use vstd::prelude::*;

verus! {

/// One of the three buttons that the input layer tells apart.
#[derive(Clone, Copy, Debug, PartialEq, Eq, Structural)]
pub enum MouseButton {
    Left,
    Right,
    Middle,
}

impl MouseButton {
    /// The button's English name, as a sequence of characters.
    pub open spec fn spec_name(self) -> Seq<char> {
        match self {
            MouseButton::Left => "Left"@,
            MouseButton::Right => "Right"@,
            MouseButton::Middle => "Middle"@,
        }
    }

    /// The button's English name.
    pub fn name(&self) -> (text: String)
        ensures
            text@ == self.spec_name(),
    {
        match self {
            MouseButton::Left => "Left".to_owned(),
            MouseButton::Right => "Right".to_owned(),
            MouseButton::Middle => "Middle".to_owned(),
        }
    }
}

} // verus!
