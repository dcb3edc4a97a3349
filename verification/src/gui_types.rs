//! The commands a front-end sends to the download worker. Kept apart from
//! any front-end so the rest of the crate compiles without one.
use vstd::prelude::*;

verus! {

/// Command sent from a front-end to the worker driving downloads.
#[derive(Debug, Clone)]
pub enum DownloadCommand {
    /// Start downloading a URL into an output path.
    Start(String, String),
    /// Stop handing out new work.
    Cancel,
}

} // verus!
