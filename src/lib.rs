//! A small terminal text viewer: the cursor, scrolling and frame-composition
//! engine, verified.

pub mod cursor;
pub mod rows;
pub mod text;
pub mod contents;
pub mod terminal;
pub mod render;
pub mod output;
pub mod editor;
