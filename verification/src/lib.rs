//! A static site generator's core: package specs and configuration, the
//! paths that pages are written to, markdown rendering, and the decisions
//! of the command-line front end. Everything that touches the file system,
//! the network or the terminal lives in the application crate around it.

pub mod builder;
pub mod text;
pub mod cmd;
