//! The Range Prober's interpretation of server metadata: the content length
//! decides whether anything can be planned at all, and a byte-range
//! acceptance signal decides between the parallel and the single-stream path.
use vstd::prelude::*;
use crate::errors::DownloadError;
use crate::strutil::{
    eq_ignore_ascii_case_str, parse_u64, spec_all_digits, spec_dec_val,
    spec_eq_ignore_ascii_case,
};

verus! {

/// What probing the server established: the authoritative total size, and
/// whether byte-range requests are accepted.
#[derive(Debug, Clone, Copy, PartialEq, Eq, Structural)]
pub struct RangeCapability {
    pub total_size: u64,
    pub supports_ranges: bool,
}

/// The content-length metadata denotes a usable size.
pub open spec fn spec_valid_content_length(cl: Option<&str>) -> bool {
    match cl {
        Some(s) => s@.len() > 0 && spec_all_digits(s@) && spec_dec_val(s@) <= u64::MAX,
        None => false,
    }
}

/// The size denoted by valid content-length metadata.
pub open spec fn spec_content_length_val(cl: Option<&str>) -> int {
    match cl {
        Some(s) => spec_dec_val(s@),
        None => 0,
    }
}

/// The byte-range acceptance signal is present: a case-insensitive "bytes".
/// Absence means "not supported", never "unknown".
pub open spec fn spec_ranges_supported(ar: Option<&str>) -> bool {
    match ar {
        Some(v) => spec_eq_ignore_ascii_case(v@, "bytes"@),
        None => false,
    }
}

/// Interpret the metadata of a probe response. Succeeds exactly when the
/// content length denotes a `u64` size; without one the download is aborted
/// before any preallocation or chunking.
pub fn interpret_probe(content_length: Option<&str>, accept_ranges: Option<&str>) -> (r: Result<
    RangeCapability,
    DownloadError,
>)
    ensures
        r is Ok <==> spec_valid_content_length(content_length),
        r matches Ok(c) ==> {
            &&& c.total_size == spec_content_length_val(content_length)
            &&& c.supports_ranges == spec_ranges_supported(accept_ranges)
        },
        r matches Err(e) ==> e == DownloadError::Probe,
{
    let total_size = match content_length {
        Some(s) => match parse_u64(s) {
            Some(v) => v,
            None => {
                return Err(DownloadError::Probe);
            },
        },
        None => {
            return Err(DownloadError::Probe);
        },
    };
    let supports_ranges = match accept_ranges {
        Some(v) => eq_ignore_ascii_case_str(v, "bytes"),
        None => false,
    };
    Ok(RangeCapability { total_size, supports_ranges })
}

} // verus!
