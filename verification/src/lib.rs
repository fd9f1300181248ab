//! Reconciliation core of a media-player panel applet.
//!
//! The library decides which player is authoritative, builds the playback
//! snapshot shown to the user, keeps the discovered-player registry and the
//! persisted settings consistent, and coordinates album-art fetches. It does
//! no input or output itself: the embedding program hands it what the session
//! bus reported and carries out the tasks it returns.

pub mod app;
pub mod art;
pub mod config;
pub mod music;
pub mod registry;
pub mod selector;
pub mod snapshot;
pub mod view;
