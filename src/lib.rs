//! Launcher for a bundled backend process: where the executable lives, how it
//! is started, and when it is torn down.

pub mod lifecycle;
pub mod location;
