//! The static configuration shared read-only by the dispatcher and every
//! worker: where to watch, where to put results, the recognition language,
//! and the quiet period after which an upload counts as finished. It is
//! loaded once at startup, outside the library, and handed in as plain
//! values; there is no hot reload.

use vstd::prelude::*;

verus! {

/// The static configuration record. The quiet period is in milliseconds.
#[derive(Debug, Clone)]
pub struct Config {
    pub watch_folder: String,
    pub destination_folder: String,
    pub language: String,
    pub process_delay_ms: u64,
}

impl Config {
    /// A configuration from its four fields.
    pub fn new(
        watch_folder: String,
        destination_folder: String,
        language: String,
        process_delay_ms: u64,
    ) -> (c: Config)
        ensures
            c.watch_folder == watch_folder,
            c.destination_folder == destination_folder,
            c.language == language,
            c.process_delay_ms == process_delay_ms,
    {
        Config { watch_folder, destination_folder, language, process_delay_ms }
    }
}

} // verus!
