//! Torrent support: magnet-link recognition, extraction of the display name
//! a magnet link carries, and the choice of backend. The transfers
//! themselves are delegated — to the Transmission daemon over RPC or to the
//! system's default torrent client — outside the library.
use vstd::prelude::*;
use vstd::string::{StringSliceAdditionalSpecFns, StrSliceExecFns};
use crate::strutil::{
    eq_ignore_ascii_case_str, find_sub_from, spec_eq_ignore_ascii_case, spec_first_sub,
    spec_starts_with, spec_url_decode, starts_with_str, url_decode_bytes,
};

pub mod settings;
pub mod transmission;

verus! {

/// The string is a magnet link.
pub open spec fn spec_is_magnet(s: Seq<char>) -> bool {
    spec_starts_with(s, "magnet:?"@)
}

/// Whether a URL is a magnet link, the only kind the torrent path accepts.
pub fn is_magnet_link(url: &str) -> (r: bool)
    ensures
        r == spec_is_magnet(url@),
{
    starts_with_str(url, "magnet:?")
}

/// Which machinery carries out a torrent download.
#[derive(Debug, Clone, Copy, PartialEq, Eq, Structural)]
pub enum TorrentBackend {
    /// Hand the magnet link to the system's default torrent client.
    External,
    /// Drive the Transmission daemon over its RPC interface.
    Transmission,
}

/// The backend selected by a configuration value: "transmission" (ASCII
/// case-insensitively) chooses the daemon, anything else — or no value —
/// the external client.
pub fn selected_backend(value: Option<&str>) -> (r: TorrentBackend)
    ensures
        match value {
            Some(v) => (r == TorrentBackend::Transmission <==> spec_eq_ignore_ascii_case(
                v@,
                "transmission"@,
            )),
            None => r == TorrentBackend::External,
        },
{
    match value {
        Some(v) => {
            if eq_ignore_ascii_case_str(v, "transmission") {
                TorrentBackend::Transmission
            } else {
                TorrentBackend::External
            }
        },
        None => TorrentBackend::External,
    }
}

/// The display name carried by a magnet link: the percent-decoded value of
/// its first `&dn=` parameter, up to the next `&`.
pub open spec fn spec_magnet_name(b: Seq<u8>) -> Option<Seq<char>> {
    let pat = seq![38u8, 100u8, 110u8, 61u8];
    match spec_first_sub(b, pat, 0) {
        None => None,
        Some(i) => {
            let vstart = i + 4;
            let vend = match spec_first_sub(b, seq![38u8], vstart) {
                Some(j) => j,
                None => b.len() as int,
            };
            Some(spec_url_decode(b.subrange(vstart, vend)))
        },
    }
}

/// Extract the display name from a magnet link, when it carries one.
pub fn extract_name_from_magnet(magnet_url: &str) -> (r: Option<String>)
    ensures
        r is Some <==> spec_magnet_name(magnet_url.spec_bytes()) is Some,
        r matches Some(name) ==> Some(name@) == spec_magnet_name(magnet_url.spec_bytes()),
{
    let bytes = magnet_url.as_bytes_vec();
    let mut pat: Vec<u8> = Vec::new();
    pat.push(38);
    pat.push(100);
    pat.push(110);
    pat.push(61);
    proof {
        assert(pat@ =~= seq![38u8, 100u8, 110u8, 61u8]);
    }
    let blen = bytes.len();
    let start = match find_sub_from(&bytes, &pat, 0) {
        Some(i) => i,
        None => {
            return None;
        },
    };
    proof {
        lemma_first_sub_in_bounds(bytes@, pat@, 0, start as int);
        assert(start + 4 <= blen);
    }
    let vstart = start + 4;
    let mut amp: Vec<u8> = Vec::new();
    amp.push(38);
    proof {
        assert(amp@ =~= seq![38u8]);
    }
    let vend = match find_sub_from(&bytes, &amp, vstart) {
        Some(j) => {
            proof {
                lemma_first_sub_in_bounds(bytes@, amp@, vstart as int, j as int);
            }
            j
        },
        None => bytes.len(),
    };
    Some(url_decode_bytes(&bytes, vstart, vend))
}

/// A found occurrence lies inside the haystack, at or after where the
/// search began.
proof fn lemma_first_sub_in_bounds(hay: Seq<u8>, pat: Seq<u8>, from: int, i: int)
    requires
        spec_first_sub(hay, pat, from) == Some(i),
    ensures
        from <= i,
        i + pat.len() <= hay.len(),
    decreases hay.len() - from,
{
    if !(from < 0 || from + pat.len() > hay.len()) {
        if pat.len() == 0 || hay.subrange(from, from + pat.len()) == pat {
        } else {
            lemma_first_sub_in_bounds(hay, pat, from + 1, i);
        }
    }
}

} // verus!
