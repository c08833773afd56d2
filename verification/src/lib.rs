//! A small real-time terminal runtime: per-frame input state, positioned
//! glyph and text objects, and the window they are composed onto.

pub mod app;
pub mod entities;
pub mod input;
pub mod types;
pub mod window;
