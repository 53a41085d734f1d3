//! A verified core for a modal terminal text editor: grapheme-aware lines,
//! a buffer of lines with structural edit operations, a cursor/scroll model
//! that maps logical text positions to screen cells, and the mode-scoped
//! command state machine that drives them.

pub mod buffer;
pub mod command;
pub mod editor;
pub mod fragment;
pub mod geometry;
pub mod line;
pub mod strutil;
pub mod unicode;
pub mod view;
