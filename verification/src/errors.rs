//! The error taxonomy of a download. Every failure surfaces as one concrete
//! `DownloadError`; nothing is silently swallowed and no partial success is
//! reported as success.
use vstd::prelude::*;
use vstd::string::StringExecFns;
use crate::chunk::Chunk;
use crate::strutil::{spec_dec_digits, u64_to_string};

verus! {

/// Why a chunk gave up after exhausting its retries.
#[derive(Debug, Clone, Copy, PartialEq, Eq, Structural)]
pub enum ChunkFailure {
    /// A network or transport error on the final attempt.
    Transport,
    /// The server answered the final attempt with a range-not-satisfiable
    /// response: its view of the resource no longer matches the planned range.
    RangeNotSatisfiable,
}

/// A failed download, with the first concrete cause.
#[derive(Debug, Clone, Copy, PartialEq, Eq, Structural)]
pub enum DownloadError {
    /// The server gave no usable content length, so nothing can be
    /// preallocated or chunked.
    Probe,
    /// A partial local file exists but the server does not support ranges;
    /// re-requesting the whole body would corrupt the file.
    ResumeUnsupported,
    /// The size on disk does not match the authoritative remote size.
    SizeMismatch { expected: u64, actual: u64 },
    /// One chunk exhausted its retries; this fails the whole download.
    Chunk { range: Chunk, cause: ChunkFailure },
    /// A local disk failure; fatal, never retried.
    Io,
}

impl DownloadError {
    /// The human-readable description of this error.
    pub open spec fn spec_message(self) -> Seq<char> {
        match self {
            DownloadError::Probe => "Could not determine file size"@,
            DownloadError::ResumeUnsupported => "Server does not support range; cannot resume partial file"@,
            DownloadError::SizeMismatch { expected, actual } => "File size mismatch: expected "@
                + spec_dec_digits(expected as int) + " bytes, got "@ + spec_dec_digits(
                actual as int,
            ) + " bytes"@,
            DownloadError::Chunk { range, cause } => {
                let head = "Failed to download chunk "@ + spec_dec_digits(range.start as int)
                    + "-"@ + spec_dec_digits(range.end as int);
                match cause {
                    ChunkFailure::Transport => head + " after retries"@,
                    ChunkFailure::RangeNotSatisfiable => head + ": range not satisfiable"@,
                }
            },
            DownloadError::Io => "Local I/O error"@,
        }
    }

    /// Render the error for display; the library itself never prints.
    pub fn message(&self) -> (r: String)
        ensures
            r@ == self.spec_message(),
    {
        match self {
            DownloadError::Probe => String::from_str("Could not determine file size"),
            DownloadError::ResumeUnsupported => String::from_str(
                "Server does not support range; cannot resume partial file",
            ),
            DownloadError::SizeMismatch { expected, actual } => {
                let mut s = String::from_str("File size mismatch: expected ");
                s.append(u64_to_string(*expected).as_str());
                s.append(" bytes, got ");
                s.append(u64_to_string(*actual).as_str());
                s.append(" bytes");
                s
            },
            DownloadError::Chunk { range, cause } => {
                let mut s = String::from_str("Failed to download chunk ");
                s.append(u64_to_string(range.start).as_str());
                s.append("-");
                s.append(u64_to_string(range.end).as_str());
                match cause {
                    ChunkFailure::Transport => s.append(" after retries"),
                    ChunkFailure::RangeNotSatisfiable => s.append(": range not satisfiable"),
                }
                s
            },
            DownloadError::Io => String::from_str("Local I/O error"),
        }
    }
}

} // verus!
