//! Core of a folder-watching document pipeline: an event model over watched
//! files, a per-file debounce state machine, a dispatcher owning the table of
//! in-flight jobs, and artifact naming. The surrounding process (filesystem
//! notifications, channels, the recognition engine, file writes and moves)
//! lives outside the library and drives these components with plain values.

pub mod config;
pub mod dispatcher;
pub mod event;
pub mod naming;
pub mod table;
pub mod worker;
