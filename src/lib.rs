//! Shows a rich-presence status chosen from the watched executables that
//! are running: the configuration model, the matching and list editing, the
//! daemon's command protocol, and the command line's reports.
pub mod config;
pub mod daemon;
pub mod ipc;
pub mod processes;
