//! A download over SFTP: the request's data, bundled for the session layer
//! outside the library that opens the connection and moves the bytes.
use vstd::prelude::*;
use crate::config::ProxyConfig;
use crate::optimization::Optimizer;

verus! {

/// One SFTP download request.
#[derive(Debug, Clone)]
pub struct SftpDownloader {
    pub url: String,
    pub output: String,
    pub quiet: bool,
    pub proxy: ProxyConfig,
    pub optimizer: Optimizer,
}

impl SftpDownloader {
    pub fn new(
        url: String,
        output: String,
        quiet: bool,
        proxy: ProxyConfig,
        optimizer: Optimizer,
    ) -> (r: Self)
        ensures
            r.url@ == url@,
            r.output@ == output@,
            r.quiet == quiet,
    {
        Self { url, output, quiet, proxy, optimizer }
    }
}

} // verus!
