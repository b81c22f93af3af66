//! The core of a development-time static asset server that tells connected
//! browsers to reload when a watched file changes.
//!
//! The crate holds the decisions and leaves every effect to its host:
//!
//! - [`asset_tracker`] decides which notifications of the file system
//!   watcher count as a change of the watched tree;
//! - [`session`] holds the versioned cell that the latest change is
//!   published into, and the protocol of a websocket session that reads it;
//! - [`serve_dir_reload`] maps a request onto the asset directory, decides
//!   whether the file gets the reload script, and puts the script into the
//!   page;
//! - [`config`] fills in the startup configuration;
//! - [`text`] and [`path`] are the helpers on characters and on paths that
//!   the others share.
//!
//! The host owns the watcher, the queue, the sockets and the files. It tells
//! the crate what happened, as an event, and does what it is told, as an
//! action. Every function states its result exactly, over the views of its
//! arguments, and the laws that relate several functions are proved next to
//! them.

pub mod asset_tracker;
pub mod config;
pub mod path;
pub mod serve_dir_reload;
pub mod session;
pub mod text;
