//! Where the Transmission daemon is reached: host, port, RPC and web paths,
//! and optional credentials, assembled from defaults and override URLs.
//! Reading the overrides out of the environment is the caller's job; every
//! decision about them is verified here.
use vstd::prelude::*;
use vstd::string::{StringExecFns, StrSliceExecFns};
use crate::strutil::{spec_dec_digits, spec_trim, str_eq, trim_str, u64_to_string};
use crate::urlinfo::{parse_url_parts, url_host_of, url_parses, url_path_of, url_port_of};

verus! {

/// How to reach a Transmission daemon.
#[derive(Debug, Clone)]
pub struct TransmissionSettings {
    pub host: String,
    pub port: u16,
    pub rpc_path: String,
    pub web_path: String,
    pub username: Option<String>,
    pub password: Option<String>,
}

/// The mathematical shape of the settings.
pub ghost struct TransmissionSettingsView {
    pub host: Seq<char>,
    pub port: u16,
    pub rpc_path: Seq<char>,
    pub web_path: Seq<char>,
    pub username: Option<Seq<char>>,
    pub password: Option<Seq<char>>,
}

impl View for TransmissionSettings {
    type V = TransmissionSettingsView;

    open spec fn view(&self) -> TransmissionSettingsView {
        TransmissionSettingsView {
            host: self.host@,
            port: self.port,
            rpc_path: self.rpc_path@,
            web_path: self.web_path@,
            username: self.username.deep_view(),
            password: self.password.deep_view(),
        }
    }
}

/// The settings used when nothing overrides them: the daemon on the local
/// machine at its usual port and paths, without credentials.
pub open spec fn spec_default_settings() -> TransmissionSettingsView {
    TransmissionSettingsView {
        host: "localhost"@,
        port: 9091,
        rpc_path: "/transmission/rpc"@,
        web_path: "/transmission/web/"@,
        username: None,
        password: None,
    }
}

/// `p` forced to begin with a slash.
pub open spec fn spec_slash_prefixed(p: Seq<char>) -> Seq<char> {
    if p.len() > 0 && p[0] == '/' {
        p
    } else {
        seq!['/'] + p
    }
}

/// The settings after applying one override URL: its host and port replace
/// the current ones where present, and its path — unless empty or just `/`
/// — replaces the web path or the RPC path; a URL that does not parse
/// changes nothing.
pub open spec fn spec_apply_url(
    v: TransmissionSettingsView,
    u: Seq<char>,
    default_path: Seq<char>,
    is_web: bool,
) -> TransmissionSettingsView {
    if !url_parses(u) {
        v
    } else {
        let host = match url_host_of(u) {
            Some(h) => h,
            None => v.host,
        };
        let port = match url_port_of(u) {
            Some(p) => p,
            None => v.port,
        };
        let path = url_path_of(u);
        let chosen = if path.len() > 0 && path != "/"@ {
            path
        } else {
            default_path
        };
        TransmissionSettingsView {
            host,
            port,
            rpc_path: if is_web {
                v.rpc_path
            } else {
                chosen
            },
            web_path: if is_web {
                chosen
            } else {
                v.web_path
            },
            username: v.username,
            password: v.password,
        }
    }
}

/// The RPC endpoint a settings value denotes.
pub open spec fn spec_rpc_url(v: TransmissionSettingsView) -> Seq<char> {
    "http://"@ + v.host + ":"@ + spec_dec_digits(v.port as int) + spec_slash_prefixed(v.rpc_path)
}

/// The web interface a settings value denotes.
pub open spec fn spec_web_url(v: TransmissionSettingsView) -> Seq<char> {
    "http://"@ + v.host + ":"@ + spec_dec_digits(v.port as int) + spec_slash_prefixed(v.web_path)
}

/// `s` has no visible character.
pub open spec fn spec_blank(s: Seq<char>) -> bool {
    spec_trim(s).len() == 0
}

impl Default for TransmissionSettings {
    fn default() -> (r: Self)
        ensures
            r@ == spec_default_settings(),
    {
        Self {
            host: String::from_str("localhost"),
            port: 9091,
            rpc_path: String::from_str("/transmission/rpc"),
            web_path: String::from_str("/transmission/web/"),
            username: None,
            password: None,
        }
    }
}

impl TransmissionSettings {
    /// The RPC endpoint: `http://host:port` followed by the RPC path,
    /// slash-prefixed.
    pub fn rpc_url(&self) -> (r: String)
        ensures
            r@ == spec_rpc_url(self@),
    {
        let mut s = String::from_str("http://");
        s.append(self.host.as_str());
        s.append(":");
        s.append(u64_to_string(self.port as u64).as_str());
        let n = self.rpc_path.as_str().unicode_len();
        if !(n > 0 && self.rpc_path.as_str().get_char(0) == '/') {
            s.append("/");
        }
        s.append(self.rpc_path.as_str());
        proof {
            reveal_strlit("/");
            assert(s@ =~= spec_rpc_url(self@));
        }
        s
    }

    /// The web interface: `http://host:port` followed by the web path,
    /// slash-prefixed.
    pub fn web_url(&self) -> (r: String)
        ensures
            r@ == spec_web_url(self@),
    {
        let mut s = String::from_str("http://");
        s.append(self.host.as_str());
        s.append(":");
        s.append(u64_to_string(self.port as u64).as_str());
        let n = self.web_path.as_str().unicode_len();
        if !(n > 0 && self.web_path.as_str().get_char(0) == '/') {
            s.append("/");
        }
        s.append(self.web_path.as_str());
        proof {
            reveal_strlit("/");
            assert(s@ =~= spec_web_url(self@));
        }
        s
    }

    /// Apply one override URL, as `spec_apply_url` describes.
    pub fn apply_url(&mut self, url: &str, default_path: &str, is_web: bool)
        ensures
            final(self)@ == spec_apply_url(old(self)@, url@, default_path@, is_web),
    {
        let parts = match parse_url_parts(url) {
            Some(p) => p,
            None => {
                return;
            },
        };
        if let Some(h) = parts.host {
            self.host = h;
        }
        if let Some(p) = parts.port {
            self.port = p;
        }
        let plen = parts.path.as_str().unicode_len();
        if plen > 0 && !str_eq(parts.path.as_str(), "/") {
            if is_web {
                self.web_path = parts.path;
            } else {
                self.rpc_path = parts.path;
            }
        } else {
            if is_web {
                self.web_path = default_path.to_owned();
            } else {
                self.rpc_path = default_path.to_owned();
            }
        }
    }

    /// Assemble the settings from the configured override values: the
    /// defaults, then the RPC override URL and the web override URL (each
    /// ignored when absent or blank), then the credentials (each kept only
    /// when non-empty).
    pub fn from_parts(
        rpc_override: Option<&str>,
        web_override: Option<&str>,
        username: Option<String>,
        password: Option<String>,
    ) -> (r: Self)
        ensures
            ({
                let v0 = spec_default_settings();
                let v1 = match rpc_override {
                    Some(u) => if !spec_blank(u@) {
                        spec_apply_url(v0, u@, "/transmission/rpc"@, false)
                    } else {
                        v0
                    },
                    None => v0,
                };
                let v2 = match web_override {
                    Some(u) => if !spec_blank(u@) {
                        spec_apply_url(v1, u@, "/transmission/web/"@, true)
                    } else {
                        v1
                    },
                    None => v1,
                };
                &&& r@.host == v2.host
                &&& r@.port == v2.port
                &&& r@.rpc_path == v2.rpc_path
                &&& r@.web_path == v2.web_path
                &&& r@.username == (match username {
                    Some(u) => if u@.len() > 0 {
                        Some(u@)
                    } else {
                        None
                    },
                    None => None,
                })
                &&& r@.password == (match password {
                    Some(p) => if p@.len() > 0 {
                        Some(p@)
                    } else {
                        None
                    },
                    None => None,
                })
            }),
    {
        let mut s = Self::default();
        if let Some(u) = rpc_override {
            if trim_str(u).as_str().unicode_len() > 0 {
                s.apply_url(u, "/transmission/rpc", false);
            }
        }
        if let Some(u) = web_override {
            if trim_str(u).as_str().unicode_len() > 0 {
                s.apply_url(u, "/transmission/web/", true);
            }
        }
        s.username = match username {
            Some(u) => if u.as_str().unicode_len() > 0 {
                Some(u)
            } else {
                None
            },
            None => None,
        };
        s.password = match password {
            Some(p) => if p.as_str().unicode_len() > 0 {
                Some(p)
            } else {
                None
            },
            None => None,
        };
        s
    }
}

} // verus!
