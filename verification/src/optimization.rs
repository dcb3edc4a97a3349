//! Optimization helpers around a download: compression of payloads by level,
//! decompression dispatched on the stored signature, and the cache key a URL
//! maps to. The codecs themselves are the `flate2`, `lz4` and `brotli`
//! crates, each call behind one trusted wrapper; every dispatch decision and
//! the cache-key arithmetic are verified.
use vstd::prelude::*;
use crate::config::OptimizationConfig;
use crate::strutil::{spec_hex_digits, u64_to_hex_string};
use vstd::string::StringSliceAdditionalSpecFns;
use vstd::string::StrSliceExecFns;

verus! {

/// A codec call that the underlying library refused.
#[derive(Debug, Clone, Copy, PartialEq, Eq, Structural)]
pub enum CodecError {
    Compress,
    Decompress,
}

/// What `flate2`'s gzip encoder produces at its fast level: a function of
/// the input bytes alone (the header it writes carries no time stamp and a
/// fixed operating-system byte).
pub uninterp spec fn gzip_fast_of(data: Seq<u8>) -> Seq<u8>;

/// What `lz4`'s block compressor produces in fast mode with a prepended
/// size: a function of the input bytes alone.
pub uninterp spec fn lz4_block_fast_of(data: Seq<u8>) -> Seq<u8>;

/// What `brotli`'s compressor produces at the given quality (window 22): a
/// function of the input bytes and the quality alone.
pub uninterp spec fn brotli_of(data: Seq<u8>, quality: u32) -> Seq<u8>;

/// What gzip decompression yields, `None` for an invalid stream.
pub uninterp spec fn gunzip_of(data: Seq<u8>) -> Option<Seq<u8>>;

/// What brotli decompression yields, `None` for an invalid stream.
pub uninterp spec fn brotli_decode_of(data: Seq<u8>) -> Option<Seq<u8>>;

/// What lz4 frame decompression yields, `None` for an invalid stream.
pub uninterp spec fn lz4_decode_of(data: Seq<u8>) -> Option<Seq<u8>>;

/// Relies on `flate2::write::GzEncoder` at `Compression::fast`.
#[verifier::external_body]
fn gzip_compress(data: &[u8]) -> (r: Result<Vec<u8>, CodecError>)
    ensures
        r matches Ok(v) ==> v@ == gzip_fast_of(data@),
        r matches Err(e) ==> e == CodecError::Compress,
{
    let mut enc = flate2::write::GzEncoder::new(Vec::new(), flate2::Compression::fast());
    if std::io::Write::write_all(&mut enc, data).is_err() {
        return Err(CodecError::Compress);
    }
    enc.finish().map_err(|_| CodecError::Compress)
}

/// Relies on `flate2::write::GzDecoder`: decoding is a deterministic
/// function of the stream, failing exactly on invalid streams.
#[verifier::external_body]
fn gzip_decompress(data: &[u8]) -> (r: Result<Vec<u8>, CodecError>)
    ensures
        r is Ok <==> gunzip_of(data@) is Some,
        r matches Ok(v) ==> Some(v@) == gunzip_of(data@),
        r matches Err(e) ==> e == CodecError::Decompress,
{
    let mut dec = flate2::write::GzDecoder::new(Vec::new());
    if std::io::Write::write_all(&mut dec, data).is_err() {
        return Err(CodecError::Decompress);
    }
    dec.finish().map_err(|_| CodecError::Decompress)
}

/// Relies on `lz4::block::compress` in `FAST(0)` mode with a prepended size.
#[verifier::external_body]
fn lz4_compress(data: &[u8]) -> (r: Result<Vec<u8>, CodecError>)
    ensures
        r matches Ok(v) ==> v@ == lz4_block_fast_of(data@),
        r matches Err(e) ==> e == CodecError::Compress,
{
    lz4::block::compress(data, Some(lz4::block::CompressionMode::FAST(0)), true).map_err(
        |_| CodecError::Compress,
    )
}

/// Relies on `lz4::Decoder` reading a frame to its end: deterministic,
/// failing exactly on invalid streams.
#[verifier::external_body]
fn lz4_decompress(data: &[u8]) -> (r: Result<Vec<u8>, CodecError>)
    ensures
        r is Ok <==> lz4_decode_of(data@) is Some,
        r matches Ok(v) ==> Some(v@) == lz4_decode_of(data@),
        r matches Err(e) ==> e == CodecError::Decompress,
{
    let mut out = Vec::new();
    match lz4::Decoder::new(data) {
        Ok(mut dec) => match std::io::Read::read_to_end(&mut dec, &mut out) {
            Ok(_) => Ok(out),
            Err(_) => Err(CodecError::Decompress),
        },
        Err(_) => Err(CodecError::Decompress),
    }
}

/// Relies on `brotli::CompressorWriter` with a 4096-byte buffer and window
/// 22.
#[verifier::external_body]
fn brotli_compress(data: &[u8], quality: u32) -> (r: Result<Vec<u8>, CodecError>)
    requires
        quality <= 11,
    ensures
        r matches Ok(v) ==> v@ == brotli_of(data@, quality),
        r matches Err(e) ==> e == CodecError::Compress,
{
    let mut enc = brotli::CompressorWriter::new(Vec::new(), 4096, quality, 22);
    if std::io::Write::write_all(&mut enc, data).is_err() {
        return Err(CodecError::Compress);
    }
    Ok(enc.into_inner())
}

/// Relies on `brotli::Decompressor` reading to the end: deterministic,
/// failing exactly on invalid streams.
#[verifier::external_body]
fn brotli_decompress(data: &[u8]) -> (r: Result<Vec<u8>, CodecError>)
    ensures
        r is Ok <==> brotli_decode_of(data@) is Some,
        r matches Ok(v) ==> Some(v@) == brotli_decode_of(data@),
        r matches Err(e) ==> e == CodecError::Decompress,
{
    let mut out = Vec::new();
    let mut dec = brotli::Decompressor::new(data, 4096);
    match std::io::Read::read_to_end(&mut dec, &mut out) {
        Ok(_) => Ok(out),
        Err(_) => Err(CodecError::Decompress),
    }
}

fn copy_bytes(data: &Vec<u8>) -> (r: Vec<u8>)
    ensures
        r@ == data@,
{
    let n = data.len();
    let mut out: Vec<u8> = Vec::new();
    let mut i: usize = 0;
    while i < n
        invariant
            0 <= i <= n,
            n == data@.len(),
            out@.len() == i,
            forall|k: int| 0 <= k < i ==> out@[k] == data@[k],
        decreases n - i,
    {
        out.push(data[i]);
        i = i + 1;
    }
    proof {
        assert(out@ =~= data@);
    }
    out
}

/// The stream begins with the gzip signature.
pub open spec fn spec_gzip_signature(b: Seq<u8>) -> bool {
    b.len() >= 2 && b[0] == 0x1f && b[1] == 0x8b
}

/// The stream begins with the four-byte signature the decompressor routes
/// to brotli.
pub open spec fn spec_brotli_signature(b: Seq<u8>) -> bool {
    b.len() >= 4 && b[0] == 0x28 && b[1] == 0xb5 && b[2] == 0x2f && b[3] == 0xfd
}

/// The hash a URL's cache file is named after: a 31-based rolling hash over
/// the URL's bytes, with wrapping arithmetic.
pub open spec fn spec_cache_key(b: Seq<u8>) -> u64
    decreases b.len(),
{
    if b.len() == 0 {
        0u64
    } else {
        vstd::wrapping::u64_specs::wrapping_add(
            vstd::wrapping::u64_specs::wrapping_mul(spec_cache_key(b.drop_last()), 31),
            b.last() as u64,
        )
    }
}

/// Optimizes download handling through compression and caching decisions.
#[derive(Debug, Clone)]
pub struct Optimizer {
    pub config: OptimizationConfig,
    pub speed_limit: Option<u64>,
}

impl Optimizer {
    /// Make a new Optimizer carrying the given configuration; the speed
    /// limit is lifted out of it.
    pub fn new(config: OptimizationConfig) -> (r: Self)
        ensures
            r.config == config,
            r.speed_limit == config.speed_limit,
    {
        let speed_limit = config.speed_limit;
        Self { config, speed_limit }
    }

    /// Compress data by the configured level: 1-3 gzip, 4-6 lz4, 7-9 brotli,
    /// anything else (or compression off) passes the bytes through.
    pub fn compress(&self, data: &Vec<u8>) -> (r: Result<Vec<u8>, CodecError>)
        ensures
            !self.config.compression ==> (r matches Ok(v) && v@ == data@),
            self.config.compression && 1 <= self.config.compression_level <= 3 ==> (
            r matches Ok(v) ==> v@ == gzip_fast_of(data@)),
            self.config.compression && 4 <= self.config.compression_level <= 6 ==> (
            r matches Ok(v) ==> v@ == lz4_block_fast_of(data@)),
            self.config.compression && 7 <= self.config.compression_level <= 9 ==> (
            r matches Ok(v) ==> v@ == brotli_of(data@, self.config.compression_level as u32)),
            self.config.compression && (self.config.compression_level == 0
                || self.config.compression_level > 9) ==> (r matches Ok(v) && v@ == data@),
            r matches Err(e) ==> e == CodecError::Compress,
    {
        if !self.config.compression {
            return Ok(copy_bytes(data));
        }
        let level = self.config.compression_level;
        if 1 <= level && level <= 3 {
            gzip_compress(data.as_slice())
        } else if 4 <= level && level <= 6 {
            lz4_compress(data.as_slice())
        } else if 7 <= level && level <= 9 {
            brotli_compress(data.as_slice(), level as u32)
        } else {
            Ok(copy_bytes(data))
        }
    }

    /// Decompress data by the signature it starts with: gzip, the brotli
    /// marker, or (otherwise) an lz4 frame; with compression off the bytes
    /// pass through.
    pub fn decompress(&self, data: &Vec<u8>) -> (r: Result<Vec<u8>, CodecError>)
        ensures
            !self.config.compression ==> (r matches Ok(v) && v@ == data@),
            self.config.compression && spec_gzip_signature(data@) ==> {
                &&& r is Ok <==> gunzip_of(data@) is Some
                &&& (r matches Ok(v) ==> Some(v@) == gunzip_of(data@))
            },
            self.config.compression && !spec_gzip_signature(data@) && spec_brotli_signature(
                data@,
            ) ==> {
                &&& r is Ok <==> brotli_decode_of(data@) is Some
                &&& (r matches Ok(v) ==> Some(v@) == brotli_decode_of(data@))
            },
            self.config.compression && !spec_gzip_signature(data@) && !spec_brotli_signature(
                data@,
            ) ==> {
                &&& r is Ok <==> lz4_decode_of(data@) is Some
                &&& (r matches Ok(v) ==> Some(v@) == lz4_decode_of(data@))
            },
            r matches Err(e) ==> e == CodecError::Decompress,
    {
        if !self.config.compression {
            return Ok(copy_bytes(data));
        }
        let n = data.len();
        if n >= 2 && data[0] == 0x1f && data[1] == 0x8b {
            gzip_decompress(data.as_slice())
        } else if n >= 4 && data[0] == 0x28 && data[1] == 0xb5 && data[2] == 0x2f && data[3]
            == 0xfd {
            brotli_decompress(data.as_slice())
        } else {
            lz4_decompress(data.as_slice())
        }
    }

    /// The peer cap handed to torrent transfers: the configured speed limit
    /// when one is set (as the original configuration format reuses that
    /// field), 50 otherwise.
    pub fn get_peer_limit(&self) -> (r: usize)
        ensures
            self.speed_limit matches Some(l) ==> r == l as usize,
            self.speed_limit is None ==> r == 50,
    {
        match self.speed_limit {
            Some(l) => l as usize,
            None => 50,
        }
    }

    pub fn is_compression_enabled(&self) -> (r: bool)
        ensures
            r == self.config.compression,
    {
        self.config.compression
    }

    /// The cache file name for a URL: the rolling hash of its bytes,
    /// rendered in lower-case hexadecimal.
    pub fn cache_file_name(&self, url: &str) -> (r: String)
        ensures
            r@ == spec_hex_digits(spec_cache_key(url.spec_bytes()) as int),
    {
        let bytes = url.as_bytes_vec();
        let n = bytes.len();
        let mut hash: u64 = 0;
        let mut i: usize = 0;
        while i < n
            invariant
                0 <= i <= n,
                n == bytes@.len(),
                hash == spec_cache_key(bytes@.take(i as int)),
            decreases n - i,
        {
            proof {
                assert(bytes@.take(i + 1).drop_last() =~= bytes@.take(i as int));
                assert(bytes@.take(i + 1).last() == bytes@[i as int]);
            }
            hash = hash.wrapping_mul(31).wrapping_add(bytes[i] as u64);
            i = i + 1;
        }
        proof {
            assert(bytes@.take(n as int) =~= bytes@);
        }
        u64_to_hex_string(hash)
    }
}

} // verus!
