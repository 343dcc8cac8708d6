//! Verified core of a terminal quiz game: text layout, scoring, timing and
//! the decisions behind every screen.
pub mod number;
pub mod number_laws;
pub mod style;
pub mod beat;
pub mod controls;
pub mod deck;
pub mod files;
pub mod fuse;
pub mod messages;
pub mod results;
pub mod screen;
pub mod session;
pub mod text;
pub mod wrap_laws;
