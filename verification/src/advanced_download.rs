//! The advanced (parallel, resumable) downloader's own decisions: what one
//! invocation carries, ISO detection, chunk calculation, and the
//! post-download integrity check. The probing, fetching and verification
//! machinery it drives lives in the planner, worker, orchestrator and
//! hashing modules; the HTTP client and the file handle live outside the
//! library and follow the proxy plan and the chunk plan.
use vstd::prelude::*;
use crate::chunk::{plan_chunks, spec_plan_chunks, Chunk};
use crate::config::ProxyConfig;
use crate::errors::DownloadError;
use crate::hashing::{sha256_hex, sha256_of, spec_hex_of_bytes};
use crate::optimization::Optimizer;
use crate::strutil::{ends_with_ignore_ascii_case, spec_ends_with_ignore_ascii_case};

verus! {

/// One invocation of the parallel, resumable downloader.
#[derive(Debug, Clone)]
pub struct AdvancedDownloader {
    pub url: String,
    pub output_path: String,
    pub quiet_mode: bool,
    pub proxy: ProxyConfig,
    pub optimizer: Optimizer,
}

impl AdvancedDownloader {
    /// Bundle one download invocation. The HTTP client itself is built
    /// outside the library, from `proxy.plan()`.
    pub fn new(
        url: String,
        output_path: String,
        quiet_mode: bool,
        proxy_config: ProxyConfig,
        optimizer: Optimizer,
    ) -> (r: Self)
        ensures
            r.url@ == url@,
            r.output_path@ == output_path@,
            r.quiet_mode == quiet_mode,
            r.proxy == proxy_config,
    {
        Self { url, output_path, quiet_mode, proxy: proxy_config, optimizer }
    }

    /// The target is an ISO image, judged by its URL suffix: such a file is
    /// downloaded raw, with every transform disabled.
    pub fn is_iso(&self) -> (r: bool)
        ensures
            r == spec_ends_with_ignore_ascii_case(self.url@, ".iso"@),
    {
        ends_with_ignore_ascii_case(self.url.as_str(), ".iso")
    }

    /// The chunk plan for this download: the ranges covering what is not on
    /// disk yet, sized for the available parallelism.
    pub fn calculate_chunks(
        &self,
        total_size: u64,
        existing_size: Option<u64>,
        worker_count: u64,
    ) -> (chunks: Vec<Chunk>)
        ensures
            chunks@ == spec_plan_chunks(
                total_size,
                match existing_size {
                    Some(s) => s,
                    None => 0u64,
                },
                worker_count,
            ),
    {
        let resume_offset = match existing_size {
            Some(s) => s,
            None => 0,
        };
        plan_chunks(total_size, resume_offset, worker_count)
    }

    /// The post-download integrity check: the finished file's bytes must be
    /// exactly as many as probed, and their SHA-256 digest is reported for
    /// comparison against a published hash.
    pub fn verify_integrity(&self, contents: &Vec<u8>, expected_size: u64) -> (r: Result<
        String,
        DownloadError,
    >)
        ensures
            r is Ok <==> contents@.len() == expected_size,
            r matches Ok(h) ==> h@ == spec_hex_of_bytes(sha256_of(contents@)),
            r matches Err(e) ==> e == (DownloadError::SizeMismatch {
                expected: expected_size,
                actual: contents@.len() as u64,
            }),
    {
        let actual = contents.len() as u64;
        if actual != expected_size {
            return Err(DownloadError::SizeMismatch { expected: expected_size, actual });
        }
        Ok(sha256_hex(contents))
    }
}

} // verus!
