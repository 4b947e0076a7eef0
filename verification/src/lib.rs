//! Placeholder-file mirroring for media libraries: file classification,
//! placeholder planning, transfer-command construction, and the watcher
//! state machine, with machine-checked contracts.

pub mod text;
pub mod command;
pub mod pattern;
pub mod ssh;
pub mod location;
pub mod dir_sync;
pub mod paths;
pub mod watcher;
pub mod strm;
pub mod network;
pub mod telegram;
pub mod emby;
pub mod logger;
