//! The logic of an SVG viewer: picking image files out of a directory listing,
//! laying them out in rows that follow the window width, and the application's
//! message-driven state.

pub mod files;
pub mod layout;
pub mod state;
