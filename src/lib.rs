//! Decisions around rendering and publishing Julia sets: when to retry a
//! failed upload and how to report it, what the posting environment holds,
//! how long to search for a parameter, and how large to render.

pub mod env;
pub mod render;
pub mod retry;
pub mod sampling;
