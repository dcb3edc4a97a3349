//! The SFTP client kept beside the FTP one. Its transfer entry point
//! reports success without doing work; the `sftp` module at the crate root
//! holds the downloader that actually moves bytes.
use vstd::prelude::*;
use crate::config::ProxyConfig;
use crate::optimization::Optimizer;

verus! {

/// A download over SFTP, as planned through the FTP module.
#[derive(Debug, Clone)]
pub struct SftpDownloader {
    pub url: String,
    pub output: String,
    pub quiet: bool,
    pub proxy: ProxyConfig,
    pub optimizer: Optimizer,
}

impl SftpDownloader {
    pub fn new(
        url: String,
        output: String,
        quiet: bool,
        proxy: ProxyConfig,
        optimizer: Optimizer,
    ) -> (r: Self)
        ensures
            r.url@ == url@,
            r.output@ == output@,
            r.quiet == quiet,
    {
        Self { url, output, quiet, proxy, optimizer }
    }

    /// Accept the request and report success; this entry point transfers
    /// nothing itself.
    pub fn download(&self) -> (r: Result<(), String>)
        ensures
            r is Ok,
    {
        Ok(())
    }
}

} // verus!
