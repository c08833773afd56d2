//! Positioned objects that can be drawn onto the window.

pub mod char_object;
pub mod game_object;
pub mod scene;
pub mod text_object;
