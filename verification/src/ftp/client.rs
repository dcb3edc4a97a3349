//! Planning an FTP transfer: where to connect — directly or through the
//! SOCKS proxy — and how to log in. The connection and the transfer run on
//! an FTP client library outside the library; they act on the plan decided
//! here.
use vstd::prelude::*;
use vstd::string::StringExecFns;
use crate::config::{ProxyConfig, ProxyType};
use crate::optimization::Optimizer;
use crate::urlinfo::{
    parse_url_parts, url_host_of, url_parses, url_password_of, url_path_of, url_port_of,
    url_username_of,
};

verus! {

/// Why no FTP connection could be planned.
#[derive(Debug, Clone, Copy, PartialEq, Eq, Structural)]
pub enum FtpPlanError {
    /// The URL does not parse.
    InvalidUrl,
    /// The URL names no host.
    InvalidHost,
    /// An HTTP(S) proxy cannot carry FTP.
    ProxyNotSupported,
    /// The proxy is enabled but no proxy URL is configured.
    ProxyUrlMissing,
    /// The proxy URL does not parse or names no host.
    InvalidProxyHost,
}

impl FtpPlanError {
    /// Render the error for display.
    pub fn message(&self) -> (r: String)
        ensures
            *self == FtpPlanError::InvalidUrl ==> r@ == "Invalid URL"@,
            *self == FtpPlanError::InvalidHost ==> r@ == "Invalid host"@,
            *self == FtpPlanError::ProxyNotSupported ==> r@
                == "HTTP/HTTPS proxy not supported for FTP"@,
            *self == FtpPlanError::ProxyUrlMissing ==> r@ == "Proxy URL not configured"@,
            *self == FtpPlanError::InvalidProxyHost ==> r@ == "Invalid proxy host"@,
    {
        match self {
            FtpPlanError::InvalidUrl => String::from_str("Invalid URL"),
            FtpPlanError::InvalidHost => String::from_str("Invalid host"),
            FtpPlanError::ProxyNotSupported => String::from_str(
                "HTTP/HTTPS proxy not supported for FTP",
            ),
            FtpPlanError::ProxyUrlMissing => String::from_str("Proxy URL not configured"),
            FtpPlanError::InvalidProxyHost => String::from_str("Invalid proxy host"),
        }
    }
}

/// Everything needed to reach and log into the FTP server.
#[derive(Debug, Clone)]
pub struct FtpTarget {
    pub host: String,
    pub port: u16,
    pub path: String,
    pub username: String,
    pub password: String,
    /// Host and port of the SOCKS proxy to tunnel through, when one is used.
    pub proxy_route: Option<(String, u16)>,
}

/// A download over FTP.
#[derive(Debug, Clone)]
pub struct FtpDownloader {
    pub url: String,
    pub output_path: String,
    pub quiet_mode: bool,
    pub proxy: ProxyConfig,
    pub optimizer: Optimizer,
}

impl FtpDownloader {
    pub fn new(
        url: String,
        output_path: String,
        quiet_mode: bool,
        proxy: ProxyConfig,
        optimizer: Optimizer,
    ) -> (r: Self)
        ensures
            r.url@ == url@,
            r.output_path@ == output_path@,
            r.quiet_mode == quiet_mode,
            r.proxy == proxy,
    {
        Self { url, output_path, quiet_mode, proxy, optimizer }
    }

    /// Decide where to connect and how to log in: host and port (21 when
    /// none) from the URL, its credentials ("anonymous" when no password),
    /// directly or — with a SOCKS proxy enabled — through the proxy's host
    /// and port (1080 when none). An HTTP(S) proxy refuses FTP.
    pub fn connection_plan(&self) -> (r: Result<FtpTarget, FtpPlanError>)
        ensures
            !url_parses(self.url@) ==> r == Err::<FtpTarget, FtpPlanError>(
                FtpPlanError::InvalidUrl,
            ),
            url_parses(self.url@) && url_host_of(self.url@) is None ==> r == Err::<
                FtpTarget,
                FtpPlanError,
            >(FtpPlanError::InvalidHost),
            url_parses(self.url@) && url_host_of(self.url@) is Some ==> {
                &&& (!self.proxy.enabled ==> (r matches Ok(t) && t.proxy_route is None))
                &&& (self.proxy.enabled && (self.proxy.proxy_type == ProxyType::Http
                    || self.proxy.proxy_type == ProxyType::Https) ==> r == Err::<
                    FtpTarget,
                    FtpPlanError,
                >(FtpPlanError::ProxyNotSupported))
                &&& (self.proxy.enabled && self.proxy.proxy_type == ProxyType::Socks5
                    && self.proxy.url is None ==> r == Err::<FtpTarget, FtpPlanError>(
                    FtpPlanError::ProxyUrlMissing,
                ))
                &&& (self.proxy.enabled && self.proxy.proxy_type == ProxyType::Socks5
                    && self.proxy.url is Some ==> {
                    let puv = self.proxy.url->Some_0@;
                    &&& (!(url_parses(puv) && url_host_of(puv) is Some) ==> r == Err::<
                        FtpTarget,
                        FtpPlanError,
                    >(FtpPlanError::InvalidProxyHost))
                    &&& (url_parses(puv) && url_host_of(puv) is Some ==> (r matches Ok(t) && (
                    t.proxy_route matches Some(pr) && pr.0@ == url_host_of(puv)->Some_0 && pr.1
                        == (match url_port_of(puv) {
                        Some(p) => p,
                        None => 1080u16,
                    }))))
                })
                &&& (r matches Ok(t) ==> {
                    &&& t.host@ == url_host_of(self.url@)->Some_0
                    &&& t.port == (match url_port_of(self.url@) {
                        Some(p) => p,
                        None => 21u16,
                    })
                    &&& t.path@ == url_path_of(self.url@)
                    &&& t.username@ == url_username_of(self.url@)
                    &&& t.password@ == (match url_password_of(self.url@) {
                        Some(p) => p,
                        None => "anonymous"@,
                    })
                })
            },
    {
        let parts = match parse_url_parts(self.url.as_str()) {
            Some(p) => p,
            None => {
                return Err(FtpPlanError::InvalidUrl);
            },
        };
        let host = match parts.host {
            Some(h) => h,
            None => {
                return Err(FtpPlanError::InvalidHost);
            },
        };
        let port = match parts.port {
            Some(p) => p,
            None => 21,
        };
        let password = match parts.password {
            Some(p) => p,
            None => String::from_str("anonymous"),
        };
        let proxy_route = if !self.proxy.enabled {
            None
        } else {
            match self.proxy.proxy_type {
                ProxyType::Http | ProxyType::Https => {
                    return Err(FtpPlanError::ProxyNotSupported);
                },
                ProxyType::Socks5 => {
                    let proxy_url = match &self.proxy.url {
                        Some(u) => u,
                        None => {
                            return Err(FtpPlanError::ProxyUrlMissing);
                        },
                    };
                    let pparts = match parse_url_parts(proxy_url.as_str()) {
                        Some(p) => p,
                        None => {
                            return Err(FtpPlanError::InvalidProxyHost);
                        },
                    };
                    let phost = match pparts.host {
                        Some(h) => h,
                        None => {
                            return Err(FtpPlanError::InvalidProxyHost);
                        },
                    };
                    let pport = match pparts.port {
                        Some(p) => p,
                        None => 1080,
                    };
                    Some((phost, pport))
                },
            }
        };
        Ok(
            FtpTarget {
                host,
                port,
                path: parts.path,
                username: parts.username,
                password,
                proxy_route,
            },
        )
    }
}

} // verus!
