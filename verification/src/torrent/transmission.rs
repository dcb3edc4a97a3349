//! Driving the Transmission daemon: which endpoint and credentials to use,
//! and what each poll of the daemon's answer means for the transfer. The
//! RPC calls, the waiting and the status display happen outside the
//! library, which only ever decides.
use vstd::prelude::*;
use crate::config::ProxyConfig;
use crate::optimization::Optimizer;
use crate::torrent::settings::{spec_rpc_url, spec_web_url, TransmissionSettings};

verus! {

/// Polls of the daemon allowed before the transfer counts as stalled (one
/// per second: half an hour).
pub const MAX_POLL_ATTEMPTS: u32 = 1800;

/// Polls granted before a stopped torrent counts as not progressing.
pub const STOPPED_GRACE_POLLS: u32 = 5;

/// A torrent transfer delegated to the Transmission daemon.
#[derive(Debug, Clone)]
pub struct TorrentDownloader {
    pub url: String,
    pub output: String,
    pub quiet: bool,
    pub proxy: ProxyConfig,
    pub optimizer: Optimizer,
}

/// What one answer of the daemon means for the transfer.
#[derive(Debug, Clone, Copy, PartialEq, Eq, Structural)]
pub enum PollAction {
    /// Too many polls: the download timed out or stalled.
    FailTimeout,
    /// The daemon no longer knows the torrent.
    FailNotFound,
    /// The daemon reports a torrent error.
    FailError,
    /// Every byte is there.
    Done,
    /// The torrent sits stopped without progressing.
    FailStopped,
    /// Keep waiting and poll again.
    Continue,
}

impl TorrentDownloader {
    pub fn new(
        url: String,
        output: String,
        quiet: bool,
        proxy: ProxyConfig,
        optimizer: Optimizer,
    ) -> (r: Self)
        ensures
            r.url@ == url@,
            r.output@ == output@,
            r.quiet == quiet,
    {
        Self { url, output, quiet, proxy, optimizer }
    }
}

/// The endpoint and credentials a Transmission session uses: the RPC URL,
/// basic authentication exactly when a non-empty user name and a password
/// are both set, and the web interface URL.
pub fn transmission_session(settings: &TransmissionSettings) -> (r: (
    String,
    Option<(String, String)>,
    String,
))
    ensures
        r.0@ == spec_rpc_url(settings@),
        r.2@ == spec_web_url(settings@),
        r.1 is Some <==> (settings@.username matches Some(u) && u.len() > 0
            && settings@.password is Some),
        r.1 matches Some(a) ==> ((settings@.username matches Some(u) && a.0@ == u) && (
        settings@.password matches Some(p) && a.1@ == p)),
{
    let rpc = settings.rpc_url();
    let web = settings.web_url();
    let auth = match (&settings.username, &settings.password) {
        (Some(u), Some(p)) => {
            if u.as_str().unicode_len() > 0 {
                Some((u.clone(), p.clone()))
            } else {
                None
            }
        },
        _ => None,
    };
    (rpc, auth, web)
}

/// Interpret one poll of the daemon, in the order the session applies the
/// checks: the poll budget, whether the torrent is still known, a reported
/// error, completion (progress is in permille), and a stopped torrent
/// past its grace period; anything else continues.
pub fn poll_decision(
    polls_done: u32,
    found: bool,
    permille: u32,
    error_code: i64,
    stopped: bool,
) -> (r: PollAction)
    ensures
        polls_done >= MAX_POLL_ATTEMPTS ==> r == PollAction::FailTimeout,
        polls_done < MAX_POLL_ATTEMPTS && !found ==> r == PollAction::FailNotFound,
        polls_done < MAX_POLL_ATTEMPTS && found && error_code != 0 ==> r == PollAction::FailError,
        polls_done < MAX_POLL_ATTEMPTS && found && error_code == 0 && permille >= 1000 ==> r
            == PollAction::Done,
        polls_done < MAX_POLL_ATTEMPTS && found && error_code == 0 && permille < 1000 && stopped
            && polls_done > STOPPED_GRACE_POLLS ==> r == PollAction::FailStopped,
        polls_done < MAX_POLL_ATTEMPTS && found && error_code == 0 && permille < 1000 && !(
        stopped && polls_done > STOPPED_GRACE_POLLS) ==> r == PollAction::Continue,
{
    if polls_done >= MAX_POLL_ATTEMPTS {
        PollAction::FailTimeout
    } else if !found {
        PollAction::FailNotFound
    } else if error_code != 0 {
        PollAction::FailError
    } else if permille >= 1000 {
        PollAction::Done
    } else if stopped && polls_done > STOPPED_GRACE_POLLS {
        PollAction::FailStopped
    } else {
        PollAction::Continue
    }
}

} // verus!
