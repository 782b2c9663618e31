//! Download orchestration for a desktop front-end over an external media
//! downloader and an external muxer.
//!
//! The crate holds the rules of one download: how the stored settings are read,
//! how a pasted text becomes a URL, which arguments the downloader is started
//! with, which files are prepared and removed, and how a session moves from a
//! submitted request to its outcome. Reading and writing files, starting the
//! child process and draining its pipes are the caller's part: the caller
//! performs what the session asks for and reports back what happened.

pub mod text;
pub mod settings;
pub mod request;
pub mod provision;
pub mod command;
pub mod supervisor;
pub mod session;
pub mod extract;
pub mod panel;
