//! Option construction and placement resolution for blitting visual content
//! onto a character-cell terminal.

pub mod align;
pub mod plane;
pub mod visual;
pub mod input;
