//! Terminal rendering toolkit: a styled cell grid, layout geometry, a space
//! distribution solver, Unicode-aware text wrapping and a draw protocol that
//! ties them together.
pub mod unicode;
pub mod chars;
pub mod style;
pub mod geometry;
pub mod rect;
pub mod wrap;
pub mod clip;
pub mod stack;
pub mod text;
pub mod widget;
pub mod event;
pub mod serialize;
pub mod stylized;
pub mod buffer;
