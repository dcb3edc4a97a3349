//! A file-download library built around a parallel, resumable, range-based
//! chunk downloader: probing a server for size and range support, planning
//! byte-range chunks, writing them at their offsets into a preallocated
//! sink, tracking progress, and falling back to a single sequential stream
//! when ranges are unavailable. FTP, SFTP and torrent transfers ride on
//! outside clients; their decisions are made here.
use vstd::prelude::*;

pub mod advanced_download;
pub mod chunk;
pub mod config;
pub mod download;
pub mod errors;
pub mod flow;
pub mod ftp;
pub mod gui_types;
pub mod hashing;
pub mod interactive;
pub mod optimization;
pub mod probe;
pub mod progress;
pub mod sftp;
pub mod sink;
pub mod strutil;
pub mod torrent;
pub mod torrent_downloader;
pub mod urlinfo;
pub mod worker;

pub use advanced_download::AdvancedDownloader;
pub use config::{Config, ProxyConfig, ProxyType};
pub use optimization::Optimizer;

verus! {

/// Options chosen by a caller for one download invocation.
#[derive(Debug, Clone)]
pub struct DownloadOptions {
    pub quiet_mode: bool,
    pub output_path: Option<String>,
    pub verify_iso: bool,
}

impl Default for DownloadOptions {
    fn default() -> (r: Self)
        ensures
            !r.quiet_mode,
            r.output_path is None,
            !r.verify_iso,
    {
        Self { quiet_mode: false, output_path: None, verify_iso: false }
    }
}

} // verus!
