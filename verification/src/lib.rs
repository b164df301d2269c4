//! Terminal-session control core of a screen-oriented editor: raw-mode
//! attribute handling, frame rendering, key decoding and the session state
//! machine that sequences them.

pub mod attributes;
pub mod keys;
pub mod platform;
pub mod screen;
pub mod session;
