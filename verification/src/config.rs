//! Configuration data and the decisions derived from it. Loading and saving
//! the settings file is I/O and lives outside the library; everything the
//! downloader reads out of a configuration is decided here.
use vstd::prelude::*;
use crate::strutil::{eq_ignore_ascii_case_str, spec_eq_ignore_ascii_case};

verus! {

#[derive(Debug, Clone, Copy, PartialEq, Eq, Structural)]
pub enum ProxyType {
    Http,
    Https,
    Socks5,
}

#[derive(Debug, Clone)]
pub struct ProxyConfig {
    pub enabled: bool,
    pub url: Option<String>,
    pub username: Option<String>,
    pub password: Option<String>,
    pub proxy_type: ProxyType,
}

#[derive(Debug, Clone)]
pub struct OptimizationConfig {
    pub compression: bool,
    pub compression_level: u8,
    pub cache_enabled: bool,
    pub cache_dir: String,
    pub speed_limit: Option<u64>,
    pub max_connections: usize,
}

/// Default cap on peer connections for torrent transfers.
pub fn default_torrent_max_peer_connections() -> (r: u32)
    ensures
        r == 50,
{
    50
}

/// Default number of upload slots for torrent transfers.
pub fn default_torrent_max_upload_slots() -> (r: u32)
    ensures
        r == 4,
{
    4
}

#[derive(Debug, Clone)]
pub struct TorrentConfig {
    pub enabled: bool,
    pub download_dir: Option<String>,
    pub max_peers: usize,
    pub max_seeds: usize,
    pub port: Option<u16>,
    pub dht_enabled: bool,
    pub max_peer_connections: u32,
    pub max_upload_slots: u32,
}

#[derive(Debug, Clone)]
pub struct FtpConfig {
    pub passive_mode: bool,
    pub default_port: u16,
}

#[derive(Debug, Clone)]
pub struct SftpConfig {
    pub default_port: u16,
    pub key_path: Option<String>,
}

#[derive(Debug, Clone)]
pub struct Config {
    pub proxy: ProxyConfig,
    pub optimization: OptimizationConfig,
    pub torrent: TorrentConfig,
    pub ftp: FtpConfig,
    pub sftp: SftpConfig,
}

impl Default for Config {
    /// The configuration used when no settings file exists.
    fn default() -> (r: Self)
        ensures
            !r.proxy.enabled,
            r.proxy.url is None,
            r.proxy.username is None,
            r.proxy.password is None,
            r.proxy.proxy_type == ProxyType::Http,
            r.optimization.compression,
            r.optimization.compression_level == 6,
            r.optimization.cache_enabled,
            r.optimization.cache_dir@ == "~/.cache/kget"@,
            r.optimization.speed_limit is None,
            r.optimization.max_connections == 4,
            !r.torrent.enabled,
            r.torrent.download_dir is None,
            r.torrent.max_peers == 50,
            r.torrent.max_seeds == 25,
            r.torrent.port is None,
            r.torrent.dht_enabled,
            r.torrent.max_peer_connections == 50,
            r.torrent.max_upload_slots == 4,
            r.ftp.passive_mode,
            r.ftp.default_port == 21,
            r.sftp.default_port == 22,
            r.sftp.key_path is None,
    {
        Self {
            proxy: ProxyConfig {
                enabled: false,
                url: None,
                username: None,
                password: None,
                proxy_type: ProxyType::Http,
            },
            optimization: OptimizationConfig {
                compression: true,
                compression_level: 6,
                cache_enabled: true,
                cache_dir: String::from_str("~/.cache/kget"),
                speed_limit: None,
                max_connections: 4,
            },
            torrent: TorrentConfig {
                enabled: false,
                download_dir: None,
                max_peers: 50,
                max_seeds: 25,
                port: None,
                dht_enabled: true,
                max_peer_connections: default_torrent_max_peer_connections(),
                max_upload_slots: default_torrent_max_upload_slots(),
            },
            ftp: FtpConfig { passive_mode: true, default_port: 21 },
            sftp: SftpConfig { default_port: 22, key_path: None },
        }
    }
}

/// The proxy type named on a command line: "https" and "socks5" select
/// themselves (ASCII case-insensitively); anything else is plain HTTP.
pub fn proxy_type_of_str(s: &str) -> (t: ProxyType)
    ensures
        spec_eq_ignore_ascii_case(s@, "https"@) ==> t == ProxyType::Https,
        spec_eq_ignore_ascii_case(s@, "socks5"@) ==> t == ProxyType::Socks5,
        !spec_eq_ignore_ascii_case(s@, "https"@) && !spec_eq_ignore_ascii_case(s@, "socks5"@)
            ==> t == ProxyType::Http,
{
    proof {
        reveal_strlit("https");
        reveal_strlit("socks5");
    }
    if eq_ignore_ascii_case_str(s, "https") {
        ProxyType::Https
    } else if eq_ignore_ascii_case_str(s, "socks5") {
        ProxyType::Socks5
    } else {
        ProxyType::Http
    }
}

/// Everything an HTTP client needs to route through the configured proxy.
#[derive(Debug, Clone)]
pub struct ProxyPlan {
    pub url: String,
    pub kind: ProxyType,
    pub auth: Option<(String, String)>,
}

impl ProxyConfig {
    /// Decide whether and how a transfer uses the proxy: only when enabled
    /// and a proxy URL is configured, with basic authentication exactly when
    /// both a username and a password are set.
    pub fn plan(&self) -> (r: Option<ProxyPlan>)
        ensures
            r is Some <==> (self.enabled && self.url is Some),
            r matches Some(p) ==> {
                &&& self.url matches Some(u) && p.url@ == u@
                &&& p.kind == self.proxy_type
                &&& (p.auth is Some <==> (self.username is Some && self.password is Some))
                &&& p.auth matches Some(a) ==> ((self.username matches Some(un) && a.0@ == un@)
                    && (self.password matches Some(pw) && a.1@ == pw@))
            },
    {
        if !self.enabled {
            return None;
        }
        let url = match &self.url {
            Some(u) => u.clone(),
            None => {
                return None;
            },
        };
        let auth = match (&self.username, &self.password) {
            (Some(un), Some(pw)) => Some((un.clone(), pw.clone())),
            _ => None,
        };
        Some(ProxyPlan { url, kind: self.proxy_type, auth })
    }
}

} // verus!
