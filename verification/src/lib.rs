//! Window, cursor and plugin housekeeping rules for the game hook.
//!
//! Every function here works on plain values; the hook that talks to the
//! operating system hands them in and carries out what comes back.

pub mod geometry;
pub mod window;
pub mod messages;
pub mod hooks;
pub mod plugins;
pub mod sizing;
