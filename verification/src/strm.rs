//! Placeholder files for media: which files count, what is written for
//! them, and how the rest of a tree is transferred.

pub mod config;
pub mod error;
pub mod method;
pub mod detector;
pub mod generator;
pub mod strategy;
pub mod file_watcher;
pub mod file_sync;
