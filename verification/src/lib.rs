//! Backend logic for a desktop markdown viewer: rendering of markdown
//! sources to HTML, a single-slot file-watch session, and the small
//! decisions behind the launch-path and external-editor commands.

pub mod commands;
pub mod render;
pub mod watch;
