//! Plain value types: integer vectors, colours and mouse buttons.

pub mod color32;
pub mod decimal;
pub mod mouse_button;
pub mod vector2int;
