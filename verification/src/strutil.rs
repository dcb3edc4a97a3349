//! Verified string and number helpers shared across the library: ASCII
//! case-insensitive comparison, decimal parsing and formatting, hexadecimal
//! formatting, and percent-decoding.
use vstd::prelude::*;
use vstd::string::StrSliceExecFns;
use vstd::string::StringSliceAdditionalSpecFns;

verus! {

/// Relies on `String::push`: appends exactly the given character.
pub assume_specification[ String::push ](s: &mut String, c: char)
    ensures
        final(s)@ == old(s)@.push(c),
;

/// The code point of `c` with an ASCII upper-case letter folded to lower case.
pub open spec fn spec_lower_code(c: char) -> int {
    if 'A' <= c && c <= 'Z' {
        c as int + 32
    } else {
        c as int
    }
}

/// Character sequences equal up to ASCII case.
pub open spec fn spec_eq_ignore_ascii_case(a: Seq<char>, b: Seq<char>) -> bool {
    a.len() == b.len() && forall|i: int|
        0 <= i < a.len() ==> spec_lower_code(#[trigger] a[i]) == spec_lower_code(b[i])
}

/// `s` ends in `suffix`, compared up to ASCII case.
pub open spec fn spec_ends_with_ignore_ascii_case(s: Seq<char>, suffix: Seq<char>) -> bool {
    s.len() >= suffix.len() && spec_eq_ignore_ascii_case(
        s.subrange(s.len() - suffix.len(), s.len() as int),
        suffix,
    )
}

fn lower_code(c: char) -> (r: u32)
    ensures
        r == spec_lower_code(c),
{
    if c >= 'A' && c <= 'Z' {
        c as u32 + 32
    } else {
        c as u32
    }
}

/// Case-insensitive (ASCII) equality of two strings.
pub fn eq_ignore_ascii_case_str(a: &str, b: &str) -> (r: bool)
    ensures
        r == spec_eq_ignore_ascii_case(a@, b@),
{
    let alen = a.unicode_len();
    let blen = b.unicode_len();
    if alen != blen {
        return false;
    }
    let mut i: usize = 0;
    while i < alen
        invariant
            0 <= i <= alen,
            alen == a@.len(),
            alen == b@.len(),
            forall|k: int|
                0 <= k < i ==> spec_lower_code(#[trigger] a@[k]) == spec_lower_code(b@[k]),
        decreases alen - i,
    {
        if lower_code(a.get_char(i)) != lower_code(b.get_char(i)) {
            return false;
        }
        i = i + 1;
    }
    true
}

/// Case-insensitive (ASCII) suffix test.
pub fn ends_with_ignore_ascii_case(s: &str, suffix: &str) -> (r: bool)
    ensures
        r == spec_ends_with_ignore_ascii_case(s@, suffix@),
{
    let slen = s.unicode_len();
    let flen = suffix.unicode_len();
    if slen < flen {
        return false;
    }
    let off = slen - flen;
    let mut i: usize = 0;
    while i < flen
        invariant
            0 <= i <= flen,
            off == slen - flen,
            flen <= slen,
            slen == s@.len(),
            flen == suffix@.len(),
            forall|k: int|
                0 <= k < i ==> spec_lower_code(#[trigger] s@[off + k]) == spec_lower_code(
                    suffix@[k],
                ),
        decreases flen - i,
    {
        if lower_code(s.get_char(off + i)) != lower_code(suffix.get_char(i)) {
            proof {
                let t = s@.subrange(s@.len() - suffix@.len(), s@.len() as int);
                assert(t[i as int] == s@[off + i]);
            }
            return false;
        }
        i = i + 1;
    }
    proof {
        let t = s@.subrange(s@.len() - suffix@.len(), s@.len() as int);
        assert forall|k: int|
            0 <= k < t.len() implies spec_lower_code(#[trigger] t[k]) == spec_lower_code(
            suffix@[k],
        ) by {
            assert(t[k] == s@[off + k]);
        }
    }
    true
}

/// `s` begins with `prefix`.
pub open spec fn spec_starts_with(s: Seq<char>, prefix: Seq<char>) -> bool {
    s.len() >= prefix.len() && s.subrange(0, prefix.len() as int) == prefix
}

/// Prefix test, character by character.
pub fn starts_with_str(s: &str, prefix: &str) -> (r: bool)
    ensures
        r == spec_starts_with(s@, prefix@),
{
    let slen = s.unicode_len();
    let plen = prefix.unicode_len();
    if slen < plen {
        return false;
    }
    let mut i: usize = 0;
    while i < plen
        invariant
            0 <= i <= plen,
            plen <= slen,
            slen == s@.len(),
            plen == prefix@.len(),
            forall|k: int| 0 <= k < i ==> s@[k] == prefix@[k],
        decreases plen - i,
    {
        if s.get_char(i) != prefix.get_char(i) {
            proof {
                let sub = s@.subrange(0, prefix@.len() as int);
                assert(sub[i as int] == s@[i as int]);
            }
            return false;
        }
        i = i + 1;
    }
    proof {
        assert(s@.subrange(0, prefix@.len() as int) =~= prefix@);
    }
    true
}

/// `c` is one of the ASCII whitespace characters stripped by trimming.
pub open spec fn spec_is_ws(c: char) -> bool {
    c == ' ' || c == '\t' || c == '\n' || c == '\r'
}

/// `s` without leading whitespace.
pub open spec fn spec_trim_start(s: Seq<char>) -> Seq<char>
    decreases s.len(),
{
    if s.len() > 0 && spec_is_ws(s[0]) {
        spec_trim_start(s.drop_first())
    } else {
        s
    }
}

/// `s` without trailing whitespace.
pub open spec fn spec_trim_end(s: Seq<char>) -> Seq<char>
    decreases s.len(),
{
    if s.len() > 0 && spec_is_ws(s.last()) {
        spec_trim_end(s.drop_last())
    } else {
        s
    }
}

/// `s` without leading and trailing whitespace.
pub open spec fn spec_trim(s: Seq<char>) -> Seq<char> {
    spec_trim_end(spec_trim_start(s))
}

fn is_ws(c: char) -> (r: bool)
    ensures
        r == spec_is_ws(c),
{
    c == ' ' || c == '\t' || c == '\n' || c == '\r'
}

proof fn lemma_trim_start_skip(s: Seq<char>, i: int)
    requires
        0 <= i <= s.len(),
        forall|j: int| 0 <= j < i ==> spec_is_ws(s[j]),
    ensures
        spec_trim_start(s) == spec_trim_start(s.subrange(i, s.len() as int)),
    decreases i,
{
    if i > 0 {
        assert(spec_is_ws(s[0]));
        assert(spec_trim_start(s) == spec_trim_start(s.drop_first()));
        lemma_trim_start_skip(s.drop_first(), i - 1);
        assert(s.drop_first().subrange(i - 1, s.drop_first().len() as int) =~= s.subrange(
            i,
            s.len() as int,
        ));
    } else {
        assert(s.subrange(0, s.len() as int) =~= s);
    }
}

proof fn lemma_trim_start_stops(s: Seq<char>)
    requires
        s.len() == 0 || !spec_is_ws(s[0]),
    ensures
        spec_trim_start(s) == s,
{
}

proof fn lemma_trim_end_skip(s: Seq<char>, i: int)
    requires
        0 <= i <= s.len(),
        forall|j: int| i <= j < s.len() ==> spec_is_ws(s[j]),
    ensures
        spec_trim_end(s) == spec_trim_end(s.subrange(0, i)),
    decreases s.len() - i,
{
    if i < s.len() {
        assert(spec_is_ws(s.last()));
        assert(spec_trim_end(s) == spec_trim_end(s.drop_last()));
        lemma_trim_end_skip(s.drop_last(), i);
        assert(s.drop_last().subrange(0, i) =~= s.subrange(0, i));
    } else {
        assert(s.subrange(0, i) =~= s);
    }
}

proof fn lemma_trim_end_stops(s: Seq<char>)
    requires
        s.len() == 0 || !spec_is_ws(s.last()),
    ensures
        spec_trim_end(s) == s,
{
}

/// Strip leading and trailing ASCII whitespace.
pub fn trim_str(s: &str) -> (r: String)
    ensures
        r@ == spec_trim(s@),
{
    let n = s.unicode_len();
    let mut from: usize = 0;
    while from < n && is_ws(s.get_char(from))
        invariant
            0 <= from <= n,
            n == s@.len(),
            forall|j: int| 0 <= j < from ==> spec_is_ws(s@[j]),
        decreases n - from,
    {
        from = from + 1;
    }
    let mut to: usize = n;
    while to > from && is_ws(s.get_char(to - 1))
        invariant
            from <= to <= n,
            n == s@.len(),
            forall|j: int| 0 <= j < from ==> spec_is_ws(s@[j]),
            forall|j: int| to <= j < n ==> spec_is_ws(s@[j]),
        decreases to,
    {
        to = to - 1;
    }
    let r = s.substring_char(from, to).to_owned();
    proof {
        let mid = s@.subrange(from as int, n as int);
        lemma_trim_start_skip(s@, from as int);
        if from < n {
            assert(mid[0] == s@[from as int]);
            assert(!spec_is_ws(mid[0]));
        }
        lemma_trim_start_stops(mid);
        lemma_trim_end_skip(mid, to - from);
        assert(mid.subrange(0, to - from) =~= s@.subrange(from as int, to as int));
        let fin = s@.subrange(from as int, to as int);
        if to > from {
            assert(fin.last() == s@[to - 1]);
            assert(!spec_is_ws(fin.last()));
        }
        lemma_trim_end_stops(fin);
    }
    r
}

/// Exact string equality, character by character.
pub fn str_eq(a: &str, b: &str) -> (r: bool)
    ensures
        r == (a@ == b@),
{
    let alen = a.unicode_len();
    let blen = b.unicode_len();
    if alen != blen {
        return false;
    }
    let mut i: usize = 0;
    while i < alen
        invariant
            0 <= i <= alen,
            alen == a@.len(),
            alen == b@.len(),
            forall|k: int| 0 <= k < i ==> a@[k] == b@[k],
        decreases alen - i,
    {
        if a.get_char(i) != b.get_char(i) {
            return false;
        }
        i = i + 1;
    }
    proof {
        assert(a@ =~= b@);
    }
    true
}

/// `c` is an ASCII decimal digit.
pub open spec fn spec_is_digit(c: char) -> bool {
    '0' <= c && c <= '9'
}

pub open spec fn spec_digit_val(c: char) -> int {
    c as int - 48
}

/// Every character of `s` is a decimal digit.
pub open spec fn spec_all_digits(s: Seq<char>) -> bool {
    forall|i: int| 0 <= i < s.len() ==> spec_is_digit(#[trigger] s[i])
}

/// The number denoted by the digit string `s` (0 for the empty string).
pub open spec fn spec_dec_val(s: Seq<char>) -> int
    decreases s.len(),
{
    if s.len() == 0 {
        0
    } else {
        spec_dec_val(s.drop_last()) * 10 + spec_digit_val(s.last())
    }
}

proof fn lemma_dec_val_nonneg(s: Seq<char>)
    requires
        spec_all_digits(s),
    ensures
        spec_dec_val(s) >= 0,
    decreases s.len(),
{
    if s.len() > 0 {
        assert(spec_all_digits(s.drop_last()));
        lemma_dec_val_nonneg(s.drop_last());
    }
}

/// The value of a digit string is at least the value of any of its prefixes.
proof fn lemma_dec_val_prefix(s: Seq<char>, i: int)
    requires
        spec_all_digits(s),
        0 <= i <= s.len(),
    ensures
        spec_dec_val(s.take(i)) <= spec_dec_val(s),
    decreases s.len() - i,
{
    if i < s.len() {
        let d = s.drop_last();
        assert(spec_all_digits(d));
        lemma_dec_val_prefix(d, i);
        assert(d.take(i) =~= s.take(i));
        lemma_dec_val_nonneg(d);
        assert(s.last() == s[s.len() - 1]);
        assert(spec_is_digit(s[s.len() - 1]));
        assert(spec_digit_val(s.last()) >= 0);
        assert(spec_dec_val(s) == spec_dec_val(d) * 10 + spec_digit_val(s.last()));
        assert(spec_dec_val(d) * 10 == spec_dec_val(d) + 9 * spec_dec_val(d));
    } else {
        assert(s.take(i) =~= s);
    }
}

/// Parse an unsigned decimal integer. Returns the denoted value exactly when
/// `s` is a non-empty all-digit string whose value fits in a `u64`.
pub fn parse_u64(s: &str) -> (r: Option<u64>)
    ensures
        r is Some <==> (s@.len() > 0 && spec_all_digits(s@) && spec_dec_val(s@) <= u64::MAX),
        r matches Some(v) ==> v == spec_dec_val(s@),
{
    let n = s.unicode_len();
    if n == 0 {
        return None;
    }
    let mut acc: u64 = 0;
    let mut i: usize = 0;
    while i < n
        invariant
            0 <= i <= n,
            n == s@.len(),
            spec_all_digits(s@.take(i as int)),
            acc == spec_dec_val(s@.take(i as int)),
        decreases n - i,
    {
        let c = s.get_char(i);
        if !(c >= '0' && c <= '9') {
            assert(!spec_is_digit(s@[i as int]));
            return None;
        }
        let d: u64 = (c as u32 - 48) as u64;
        proof {
            assert(s@.take(i + 1).drop_last() =~= s@.take(i as int));
            assert(s@.take(i + 1).last() == s@[i as int]);
            assert(spec_all_digits(s@.take(i + 1)));
        }
        if acc > (u64::MAX - d) / 10 {
            proof {
                vstd::arithmetic::div_mod::lemma_fundamental_div_mod((u64::MAX - d) as int, 10);
                assert(acc * 10 + d > u64::MAX);
                assert(spec_dec_val(s@.take(i + 1)) > u64::MAX);
                if spec_all_digits(s@) {
                    lemma_dec_val_prefix(s@, i + 1);
                }
            }
            return None;
        }
        proof {
            vstd::arithmetic::div_mod::lemma_fundamental_div_mod((u64::MAX - d) as int, 10);
            assert(acc * 10 + d <= u64::MAX);
        }
        acc = acc * 10 + d;
        i = i + 1;
    }
    proof {
        assert(s@.take(n as int) =~= s@);
    }
    Some(acc)
}

/// The decimal digit character for `d`.
pub open spec fn spec_dec_digit_char(d: int) -> char {
    (48 + d) as char
}

/// The decimal digit string of `n`, most significant digit first.
pub open spec fn spec_dec_digits(n: int) -> Seq<char>
    decreases n,
{
    if n < 10 {
        seq![spec_dec_digit_char(if n < 0 { 0 } else { n })]
    } else {
        spec_dec_digits(n / 10).push(spec_dec_digit_char(n % 10))
    }
}

/// Format `n` in decimal.
pub fn u64_to_string(n: u64) -> (s: String)
    ensures
        s@ == spec_dec_digits(n as int),
    decreases n,
{
    if n < 10 {
        let mut s = String::new();
        s.push((48 + n as u8) as char);
        s
    } else {
        let mut s = u64_to_string(n / 10);
        s.push((48 + (n % 10) as u8) as char);
        s
    }
}

/// The lower-case hexadecimal digit character for `d`.
pub open spec fn spec_hex_digit_char(d: int) -> char {
    if d < 10 {
        (48 + d) as char
    } else {
        (87 + d) as char
    }
}

/// The lower-case hexadecimal digit string of `n`, most significant first.
pub open spec fn spec_hex_digits(n: int) -> Seq<char>
    decreases n,
{
    if n < 16 {
        seq![spec_hex_digit_char(if n < 0 { 0 } else { n })]
    } else {
        spec_hex_digits(n / 16).push(spec_hex_digit_char(n % 16))
    }
}

fn hex_digit(d: u8) -> (c: char)
    requires
        d < 16,
    ensures
        c == spec_hex_digit_char(d as int),
{
    if d < 10 {
        (48 + d) as char
    } else {
        (87 + d) as char
    }
}

/// Format `n` in lower-case hexadecimal, without leading zeros.
pub fn u64_to_hex_string(n: u64) -> (s: String)
    ensures
        s@ == spec_hex_digits(n as int),
    decreases n,
{
    if n < 16 {
        let mut s = String::new();
        s.push(hex_digit(n as u8));
        s
    } else {
        let mut s = u64_to_hex_string(n / 16);
        s.push(hex_digit((n % 16) as u8));
        s
    }
}

/// `b` is an ASCII hexadecimal digit byte.
pub open spec fn spec_is_hex_byte(b: u8) -> bool {
    (48 <= b && b <= 57) || (97 <= b && b <= 102) || (65 <= b && b <= 70)
}

pub open spec fn spec_hex_byte_val(b: u8) -> int {
    if 48 <= b && b <= 57 {
        b - 48
    } else if 97 <= b && b <= 102 {
        b - 87
    } else {
        b - 55
    }
}

fn is_hex_byte(b: u8) -> (r: bool)
    ensures
        r == spec_is_hex_byte(b),
{
    (48 <= b && b <= 57) || (97 <= b && b <= 102) || (65 <= b && b <= 70)
}

fn hex_byte_val(b: u8) -> (v: u8)
    requires
        spec_is_hex_byte(b),
    ensures
        v == spec_hex_byte_val(b),
        v < 16,
{
    if 48 <= b && b <= 57 {
        b - 48
    } else if 97 <= b && b <= 102 {
        b - 87
    } else {
        b - 55
    }
}

/// Percent-decoding as used for display names inside magnet links: a `%`
/// followed by two hexadecimal digits becomes the denoted byte, `+` becomes a
/// space, and every other byte stands for itself.
pub open spec fn spec_url_decode(b: Seq<u8>) -> Seq<char>
    decreases b.len(),
{
    if b.len() == 0 {
        Seq::empty()
    } else if b[0] == 37 && b.len() >= 3 && spec_is_hex_byte(b[1]) && spec_is_hex_byte(b[2]) {
        seq![(((spec_hex_byte_val(b[1]) * 16 + spec_hex_byte_val(b[2])) as u8) as char)]
            + spec_url_decode(b.skip(3))
    } else if b[0] == 43 {
        seq![' '] + spec_url_decode(b.skip(1))
    } else {
        seq![(b[0] as char)] + spec_url_decode(b.skip(1))
    }
}

/// Percent-decode the byte range `[from, to)` of `bytes`.
pub fn url_decode_bytes(bytes: &Vec<u8>, from: usize, to: usize) -> (r: String)
    requires
        from <= to <= bytes@.len(),
    ensures
        r@ == spec_url_decode(bytes@.subrange(from as int, to as int)),
{
    let mut out = String::new();
    let mut i: usize = from;
    while i < to
        invariant
            from <= i <= to <= bytes@.len(),
            out@ + spec_url_decode(bytes@.subrange(i as int, to as int)) == spec_url_decode(
                bytes@.subrange(from as int, to as int),
            ),
        decreases to - i,
    {
        let ghost rest = bytes@.subrange(i as int, to as int);
        let b0 = bytes[i];
        assert(rest[0] == b0);
        if b0 == 37 && to - i >= 3 && is_hex_byte(bytes[i + 1]) && is_hex_byte(bytes[i + 2]) {
            assert(rest[1] == bytes@[i + 1]);
            assert(rest[2] == bytes@[i + 2]);
            let c = ((hex_byte_val(bytes[i + 1]) * 16 + hex_byte_val(bytes[i + 2])) as u8) as char;
            proof {
                assert(rest.skip(3) =~= bytes@.subrange(i + 3, to as int));
                assert(out@.push(c) + spec_url_decode(bytes@.subrange(i + 3, to as int)) =~= out@
                    + spec_url_decode(rest));
            }
            out.push(c);
            i = i + 3;
        } else if b0 == 43 {
            proof {
                assert(rest.skip(1) =~= bytes@.subrange(i + 1, to as int));
                assert(out@.push(' ') + spec_url_decode(bytes@.subrange(i + 1, to as int)) =~= out@
                    + spec_url_decode(rest));
            }
            out.push(' ');
            i = i + 1;
        } else {
            let c = b0 as char;
            proof {
                assert(rest.skip(1) =~= bytes@.subrange(i + 1, to as int));
                assert(out@.push(c) + spec_url_decode(bytes@.subrange(i + 1, to as int)) =~= out@
                    + spec_url_decode(rest));
            }
            out.push(c);
            i = i + 1;
        }
    }
    proof {
        assert(bytes@.subrange(i as int, to as int) =~= Seq::<u8>::empty());
        assert(out@ + spec_url_decode(Seq::<u8>::empty()) =~= out@);
    }
    out
}

/// Percent-decode a whole string, byte-wise.
pub fn url_decode(input: &str) -> (r: String)
    ensures
        r@ == spec_url_decode(input.spec_bytes()),
{
    let bytes = input.as_bytes_vec();
    let n = bytes.len();
    let r = url_decode_bytes(&bytes, 0, n);
    proof {
        assert(bytes@.subrange(0, n as int) =~= bytes@);
    }
    r
}

/// The least index at or after `from` where `pat` occurs in `hay`.
pub open spec fn spec_first_sub(hay: Seq<u8>, pat: Seq<u8>, from: int) -> Option<int>
    decreases hay.len() - from,
{
    if from < 0 || from + pat.len() > hay.len() {
        None
    } else if pat.len() == 0 {
        Some(from)
    } else if hay.subrange(from, from + pat.len()) == pat {
        Some(from)
    } else {
        spec_first_sub(hay, pat, from + 1)
    }
}

/// Whether `pat` occurs in `hay` exactly at index `at`.
fn match_at(hay: &Vec<u8>, pat: &Vec<u8>, at: usize) -> (r: bool)
    requires
        at + pat@.len() <= hay@.len(),
    ensures
        r == (hay@.subrange(at as int, at as int + pat@.len()) == pat@),
{
    let plen = pat.len();
    let hlen = hay.len();
    let mut j: usize = 0;
    while j < plen
        invariant
            at + plen <= hlen,
            hlen == hay@.len(),
            plen == pat@.len(),
            0 <= j <= plen,
            forall|k: int| 0 <= k < j ==> hay@[at + k] == pat@[k],
        decreases plen - j,
    {
        if hay[at + j] != pat[j] {
            proof {
                let sub = hay@.subrange(at as int, at as int + pat@.len());
                assert(sub[j as int] == hay@[at + j]);
            }
            return false;
        }
        j = j + 1;
    }
    proof {
        assert(hay@.subrange(at as int, at as int + pat@.len()) =~= pat@);
    }
    true
}

/// Find the first occurrence of `pat` in `hay` at or after `from`.
pub fn find_sub_from(hay: &Vec<u8>, pat: &Vec<u8>, from: usize) -> (r: Option<usize>)
    ensures
        r matches Some(i) ==> spec_first_sub(hay@, pat@, from as int) == Some(i as int),
        r is None ==> spec_first_sub(hay@, pat@, from as int) is None,
{
    let plen = pat.len();
    let hlen = hay.len();
    if plen > hlen || from > hlen - plen {
        return None;
    }
    let mut i: usize = from;
    while i <= hlen - plen
        invariant
            from <= i,
            plen <= hlen,
            i <= hlen - plen + 1,
            plen == pat@.len(),
            hlen == hay@.len(),
            spec_first_sub(hay@, pat@, from as int) == spec_first_sub(hay@, pat@, i as int),
        decreases hlen - i,
    {
        if match_at(hay, pat, i) {
            return Some(i);
        }
        proof {
            if pat@.len() == 0 {
                assert(hay@.subrange(i as int, i as int + pat@.len()) =~= pat@);
            }
            assert(spec_first_sub(hay@, pat@, i as int) == spec_first_sub(hay@, pat@, i + 1));
        }
        i = i + 1;
    }
    None
}

} // verus!
