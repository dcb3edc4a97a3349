//! The simple (single-stream) download path's decisions: file-name
//! validation, destination path resolution, content-type interpretation,
//! disk-space admission and the retry schedule. The network transfer and the
//! file system stay outside the library; they hand these functions plain
//! values and act on the answers.
use vstd::prelude::*;
use vstd::string::{StrSliceExecFns, StringExecFns};
use crate::strutil::{
    ends_with_ignore_ascii_case, spec_ends_with_ignore_ascii_case, str_eq,
};
use crate::urlinfo::{
    after_last_slash_str, get_filename_from_url_or_default, spec_after_last_slash,
    spec_filename_or,
};

verus! {

/// Attempts allowed for the whole-body request of the simple downloader.
pub const SIMPLE_MAX_RETRIES: u32 = 3;

/// Seconds waited between those attempts.
pub const SIMPLE_RETRY_DELAY_SECS: u64 = 2;

/// Why a file name was rejected.
#[derive(Debug, Clone, Copy, PartialEq, Eq, Structural)]
pub enum FilenameError {
    /// The name contains a directory separator.
    ContainsSeparator,
    /// The name is empty.
    Empty,
}

/// Why no destination path could be derived.
#[derive(Debug, Clone, Copy, PartialEq, Eq, Structural)]
pub enum PathError {
    /// The given output path names no file.
    NoFileName,
    /// The file name about to be used was rejected.
    BadFilename(FilenameError),
}

/// The string contains a directory separator (either style).
pub open spec fn spec_has_separator(s: Seq<char>) -> bool {
    exists|i: int| 0 <= i < s.len() && ((#[trigger] s[i]) == '/' || s[i] == '\\')
}

/// A file name must be non-empty and free of directory separators.
pub fn validate_filename(filename: &str) -> (r: Result<(), FilenameError>)
    ensures
        r is Ok <==> (filename@.len() > 0 && !spec_has_separator(filename@)),
        spec_has_separator(filename@) ==> r == Err::<(), FilenameError>(
            FilenameError::ContainsSeparator,
        ),
        !spec_has_separator(filename@) && filename@.len() == 0 ==> r == Err::<(), FilenameError>(
            FilenameError::Empty,
        ),
{
    let n = filename.unicode_len();
    let mut i: usize = 0;
    while i < n
        invariant
            0 <= i <= n,
            n == filename@.len(),
            forall|k: int| 0 <= k < i ==> !((#[trigger] filename@[k]) == '/' || filename@[k]
                == '\\'),
        decreases n - i,
    {
        let c = filename.get_char(i);
        if c == '/' || c == '\\' {
            return Err(FilenameError::ContainsSeparator);
        }
        i = i + 1;
    }
    if n == 0 {
        return Err(FilenameError::Empty);
    }
    Ok(())
}

/// The rendering `humansize::format_size` gives a byte count in the DECIMAL
/// format.
pub uninterp spec fn format_size_of(n: u64) -> Seq<char>;

/// Relies on `humansize::format_size` with the DECIMAL format: the rendering
/// is a function of the size alone.
#[verifier::external_body]
fn format_size_decimal(n: u64) -> (r: String)
    ensures
        r@ == format_size_of(n),
{
    humansize::format_size(n, humansize::DECIMAL)
}

/// Decide whether a download of `required_size` bytes may start given the
/// free space of the destination's file system; refusals carry the
/// human-readable sizes.
pub fn check_disk_space(available_space: u64, required_size: u64) -> (r: Result<(), String>)
    ensures
        r is Ok <==> available_space >= required_size,
        r matches Err(m) ==> m@ == "Insufficient disk space. Required: "@ + format_size_of(
            required_size,
        ) + ", Available: "@ + format_size_of(available_space),
{
    if available_space >= required_size {
        Ok(())
    } else {
        let mut m = String::from_str("Insufficient disk space. Required: ");
        m.append(format_size_decimal(required_size).as_str());
        m.append(", Available: ");
        m.append(format_size_decimal(available_space).as_str());
        Err(m)
    }
}

/// Whether `mime`'s parser accepts the string.
pub uninterp spec fn mime_parses(s: Seq<char>) -> bool;

/// The essence (type/subtype, lower-cased) of the parsed media type.
pub uninterp spec fn mime_essence_of(s: Seq<char>) -> Seq<char>;

/// Relies on `mime::Mime`'s `FromStr` and `essence_str`: whether a string
/// parses and its essence are functions of the string alone.
#[verifier::external_body]
fn parse_mime_essence(s: &str) -> (r: Option<String>)
    ensures
        r is Some <==> mime_parses(s@),
        r matches Some(e) ==> e@ == mime_essence_of(s@),
{
    match s.parse::<mime::Mime>() {
        Ok(m) => Some(m.essence_str().to_string()),
        Err(_) => None,
    }
}

/// The declared content type marks an ISO image.
pub open spec fn spec_iso_content_type(ct: Option<&str>) -> bool {
    match ct {
        Some(s) => mime_parses(s@) && (mime_essence_of(s@) == "application/x-iso9001"@
            || mime_essence_of(s@) == "application/x-cd-image"@),
        None => false,
    }
}

/// An ISO image is detected from the URL suffix (case-insensitively) or the
/// declared content type; it is then downloaded raw, with no optimization
/// that could corrupt binary data.
pub fn is_iso_target(url: &str, content_type: Option<&str>) -> (r: bool)
    ensures
        r == (spec_ends_with_ignore_ascii_case(url@, ".iso"@) || spec_iso_content_type(
            content_type,
        )),
{
    if ends_with_ignore_ascii_case(url, ".iso") {
        return true;
    }
    match content_type {
        Some(s) => match parse_mime_essence(s) {
            Some(e) => str_eq(e.as_str(), "application/x-iso9001") || str_eq(
                e.as_str(),
                "application/x-cd-image",
            ),
            None => false,
        },
        None => false,
    }
}

/// Whether the whole-body request is retried after this many failures, and
/// after how many seconds.
pub fn simple_retry_decision(failed_attempts: u32) -> (r: Option<u64>)
    ensures
        failed_attempts < SIMPLE_MAX_RETRIES ==> r == Some(SIMPLE_RETRY_DELAY_SECS),
        failed_attempts >= SIMPLE_MAX_RETRIES ==> r is None,
{
    if failed_attempts < SIMPLE_MAX_RETRIES {
        Some(SIMPLE_RETRY_DELAY_SECS)
    } else {
        None
    }
}

/// `dir` and `name` joined with a single slash.
pub open spec fn spec_join_path(dir: Seq<char>, name: Seq<char>) -> Seq<char> {
    if dir.len() > 0 && dir.last() == '/' {
        dir + name
    } else {
        dir + seq!['/'] + name
    }
}

/// Derive the destination path of a download. With no output argument the
/// file name comes from the URL (or the default); an output argument naming
/// a directory (as the caller observed on disk, or by a trailing separator)
/// has that file name appended; any other output argument is used as given,
/// provided its final component is a valid file name.
pub fn resolve_tentative_path(
    output_arg: Option<&str>,
    output_is_dir: bool,
    url: &str,
    default_name: &str,
) -> (r: Result<String, PathError>)
    ensures
        output_arg is None ==> {
            let name = spec_filename_or(url@, default_name@);
            &&& (r is Ok <==> (name.len() > 0 && !spec_has_separator(name)))
            &&& (r matches Ok(p) ==> p@ == name)
        },
        output_arg is Some ==> {
            let dirv = output_arg->Some_0;
            let dir_like = output_is_dir || (dirv@.len() > 0 && dirv@.last() == '/');
            let name_url = spec_filename_or(url@, default_name@);
            let name_file = spec_after_last_slash(dirv@);
            &&& dir_like ==> ((r is Ok <==> (name_url.len() > 0 && !spec_has_separator(
                name_url,
            ))) && (r matches Ok(p) ==> p@ == spec_join_path(dirv@, name_url)))
            &&& !dir_like ==> ((r is Ok <==> (name_file.len() > 0 && !spec_has_separator(
                name_file,
            ))) && (r matches Ok(p) ==> p@ == dirv@) && (name_file.len() == 0 ==> r == Err::<
                String,
                PathError,
            >(PathError::NoFileName)))
        },
{
    match output_arg {
        None => {
            let name = get_filename_from_url_or_default(url, default_name);
            match validate_filename(name.as_str()) {
                Ok(()) => Ok(name),
                Err(e) => Err(PathError::BadFilename(e)),
            }
        },
        Some(path) => {
            let n = path.unicode_len();
            let trailing = n > 0 && path.get_char(n - 1) == '/';
            if output_is_dir || trailing {
                let name = get_filename_from_url_or_default(url, default_name);
                match validate_filename(name.as_str()) {
                    Ok(()) => {
                        let mut joined = path.to_owned();
                        if !trailing {
                            joined.push('/');
                        }
                        joined.append(name.as_str());
                        proof {
                            assert(joined@ =~= spec_join_path(
                                path@,
                                spec_filename_or(url@, default_name@),
                            ));
                        }
                        Ok(joined)
                    },
                    Err(e) => Err(PathError::BadFilename(e)),
                }
            } else {
                let name = after_last_slash_str(path);
                if name.as_str().unicode_len() == 0 {
                    return Err(PathError::NoFileName);
                }
                match validate_filename(name.as_str()) {
                    Ok(()) => Ok(path.to_owned()),
                    Err(e) => Err(PathError::BadFilename(e)),
                }
            }
        },
    }
}

} // verus!
