//! What the library reads out of a URL: host, port, path, credentials, and
//! the file name carried in the path. Parsing itself is delegated to the
//! `url` crate behind one trusted wrapper; every decision built on the parts
//! is verified.
use vstd::prelude::*;
use vstd::string::StrSliceExecFns;

verus! {

/// The components of a parsed URL, as plain values.
#[derive(Debug, Clone)]
pub struct UrlParts {
    pub host: Option<String>,
    pub port: Option<u16>,
    pub path: String,
    pub username: String,
    pub password: Option<String>,
}

/// Whether `url::Url::parse` accepts the string.
pub uninterp spec fn url_parses(s: Seq<char>) -> bool;

/// The host of the URL, as `url::Url::host_str` returns it.
pub uninterp spec fn url_host_of(s: Seq<char>) -> Option<Seq<char>>;

/// The explicit port of the URL, as `url::Url::port` returns it.
pub uninterp spec fn url_port_of(s: Seq<char>) -> Option<u16>;

/// The path of the URL, as `url::Url::path` returns it.
pub uninterp spec fn url_path_of(s: Seq<char>) -> Seq<char>;

/// The user name of the URL, as `url::Url::username` returns it ("" when
/// absent).
pub uninterp spec fn url_username_of(s: Seq<char>) -> Seq<char>;

/// The password of the URL, as `url::Url::password` returns it.
pub uninterp spec fn url_password_of(s: Seq<char>) -> Option<Seq<char>>;

/// Relies on `url::Url::parse` and the accessors `host_str`, `port`, `path`,
/// `username` and `password` of the `url` crate: whether a string parses and
/// what each accessor returns are functions of the string alone.
#[verifier::external_body]
pub(crate) fn parse_url_parts(s: &str) -> (r: Option<UrlParts>)
    ensures
        r is Some <==> url_parses(s@),
        r matches Some(p) ==> {
            &&& p.host.deep_view() == url_host_of(s@)
            &&& p.port == url_port_of(s@)
            &&& p.path@ == url_path_of(s@)
            &&& p.username@ == url_username_of(s@)
            &&& p.password.deep_view() == url_password_of(s@)
        },
{
    match url::Url::parse(s) {
        Ok(u) => Some(
            UrlParts {
                host: u.host_str().map(|h| h.to_string()),
                port: u.port(),
                path: u.path().to_string(),
                username: u.username().to_string(),
                password: u.password().map(|p| p.to_string()),
            },
        ),
        Err(_) => None,
    }
}

/// The characters of `p` after its last `/` (all of `p` when it has none).
pub open spec fn spec_after_last_slash(p: Seq<char>) -> Seq<char>
    decreases p.len(),
{
    if p.len() == 0 {
        Seq::empty()
    } else if p.last() == '/' {
        Seq::empty()
    } else {
        spec_after_last_slash(p.drop_last()).push(p.last())
    }
}

proof fn lemma_after_last_slash(p: Seq<char>, i: int)
    requires
        0 <= i < p.len(),
        p[i] == '/',
        forall|j: int| i < j < p.len() ==> p[j] != '/',
    ensures
        spec_after_last_slash(p) == p.subrange(i + 1, p.len() as int),
    decreases p.len(),
{
    if i == p.len() - 1 {
        assert(p.last() == '/');
        assert(spec_after_last_slash(p) =~= p.subrange(i + 1, p.len() as int));
    } else {
        let d = p.drop_last();
        assert(p.last() != '/');
        assert(d[i] == '/');
        lemma_after_last_slash(d, i);
        assert(d.subrange(i + 1, d.len() as int).push(p.last()) =~= p.subrange(
            i + 1,
            p.len() as int,
        ));
    }
}

proof fn lemma_after_last_slash_none(p: Seq<char>)
    requires
        forall|j: int| 0 <= j < p.len() ==> p[j] != '/',
    ensures
        spec_after_last_slash(p) == p,
    decreases p.len(),
{
    if p.len() > 0 {
        let d = p.drop_last();
        lemma_after_last_slash_none(d);
        assert(d.push(p.last()) =~= p);
    } else {
        assert(spec_after_last_slash(p) =~= p);
    }
}

/// The characters of `s` after its last slash — all of `s` when it has none.
pub fn after_last_slash_str(s: &str) -> (r: String)
    ensures
        r@ == spec_after_last_slash(s@),
{
    let n = s.unicode_len();
    let mut last_slash: Option<usize> = None;
    let mut i: usize = 0;
    while i < n
        invariant
            0 <= i <= n,
            n == s@.len(),
            last_slash matches Some(ls) ==> (ls < i && s@[ls as int] == '/' && forall|j: int|
                ls < j < i ==> s@[j] != '/'),
            last_slash is None ==> forall|j: int| 0 <= j < i ==> s@[j] != '/',
        decreases n - i,
    {
        if s.get_char(i) == '/' {
            last_slash = Some(i);
        }
        i = i + 1;
    }
    match last_slash {
        Some(ls) => {
            let seg = s.substring_char(ls + 1, n).to_owned();
            proof {
                lemma_after_last_slash(s@, ls as int);
            }
            seg
        },
        None => {
            proof {
                lemma_after_last_slash_none(s@);
            }
            s.to_owned()
        },
    }
}

/// The last segment of a URL path: present exactly when the path begins with
/// `/` (URLs that cannot be a base have no segments), and equal to whatever
/// follows the last slash.
pub fn last_path_segment(path: &str) -> (r: Option<String>)
    ensures
        r is Some <==> (path@.len() > 0 && path@[0] == '/'),
        r matches Some(seg) ==> seg@ == spec_after_last_slash(path@),
{
    let n = path.unicode_len();
    if n == 0 {
        return None;
    }
    if path.get_char(0) != '/' {
        return None;
    }
    let mut last_slash: usize = 0;
    let mut i: usize = 1;
    while i < n
        invariant
            1 <= i <= n,
            n == path@.len(),
            0 <= last_slash < i,
            path@[last_slash as int] == '/',
            forall|j: int| last_slash < j < i ==> path@[j] != '/',
        decreases n - i,
    {
        if path.get_char(i) == '/' {
            last_slash = i;
        }
        i = i + 1;
    }
    let seg = path.substring_char(last_slash + 1, n).to_owned();
    proof {
        lemma_after_last_slash(path@, last_slash as int);
    }
    Some(seg)
}

/// The file name a URL suggests: the last path segment when the URL parses
/// and that segment is non-empty, the given default otherwise.
pub open spec fn spec_filename_or(urlv: Seq<char>, defaultv: Seq<char>) -> Seq<char> {
    if url_parses(urlv) && url_path_of(urlv).len() > 0 && url_path_of(urlv)[0] == '/'
        && spec_after_last_slash(url_path_of(urlv)).len() > 0 {
        spec_after_last_slash(url_path_of(urlv))
    } else {
        defaultv
    }
}

/// Extract a file name from a URL, falling back to `default_filename` when
/// the URL does not parse or carries no usable segment.
pub fn get_filename_from_url_or_default(url_str: &str, default_filename: &str) -> (r: String)
    ensures
        r@ == spec_filename_or(url_str@, default_filename@),
{
    match parse_url_parts(url_str) {
        Some(parts) => {
            match last_path_segment(parts.path.as_str()) {
                Some(seg) => {
                    if seg.as_str().unicode_len() > 0 {
                        seg
                    } else {
                        default_filename.to_owned()
                    }
                },
                None => default_filename.to_owned(),
            }
        },
        None => default_filename.to_owned(),
    }
}

} // verus!
