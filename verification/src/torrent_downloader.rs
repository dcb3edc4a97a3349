//! A torrent download bundled with its settings, handed on to the torrent
//! machinery once the URL is checked to be a magnet link.
use vstd::prelude::*;
use crate::config::{ProxyConfig, TorrentConfig};
use crate::optimization::Optimizer;
use crate::torrent::spec_is_magnet;
use crate::torrent::is_magnet_link;
use vstd::string::StringExecFns;

verus! {

/// Manages one download over the torrent machinery.
#[derive(Debug, Clone)]
pub struct TorrentDownloader {
    pub url: String,
    pub output_path: String,
    pub quiet_mode: bool,
    pub proxy: ProxyConfig,
    pub optimizer: Optimizer,
    pub torrent_config: TorrentConfig,
}

impl TorrentDownloader {
    /// Bundle a torrent download with its settings.
    pub fn new(
        url: String,
        output_path: String,
        quiet_mode: bool,
        proxy: ProxyConfig,
        optimizer: Optimizer,
        torrent_config: TorrentConfig,
    ) -> (r: Self)
        ensures
            r.url@ == url@,
            r.output_path@ == output_path@,
            r.quiet_mode == quiet_mode,
    {
        Self { url, output_path, quiet_mode, proxy, optimizer, torrent_config }
    }

    /// A torrent download accepts magnet links only.
    pub fn validate_url(&self) -> (r: Result<(), String>)
        ensures
            r is Ok <==> spec_is_magnet(self.url@),
            r matches Err(m) ==> m@ == "URL is not a valid magnet link"@,
    {
        if is_magnet_link(self.url.as_str()) {
            Ok(())
        } else {
            Err(String::from_str("URL is not a valid magnet link"))
        }
    }
}

} // verus!
