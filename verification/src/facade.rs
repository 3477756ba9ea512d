//! One-shot compression and decompression, with and without a dictionary,
//! and the pure size and ratio utilities.

use vstd::prelude::*;

use crate::codec;
use crate::errors::ZstdError;

verus! {

/// The compression level used when the caller supplies none.
pub const DEFAULT_COMPRESSION_LEVEL: i32 = 6;

/// The lowest accepted compression level.
pub const MIN_COMPRESSION_LEVEL: i32 = 1;

/// The highest accepted compression level.
pub const MAX_COMPRESSION_LEVEL: i32 = 22;

/// The level a request stands for: the one supplied, or the default.
pub open spec fn effective_level(level: Option<i32>) -> int {
    match level {
        Some(l) => l as int,
        None => DEFAULT_COMPRESSION_LEVEL as int,
    }
}

/// Levels the codec is allowed to see.
pub open spec fn valid_level(level: int) -> bool {
    MIN_COMPRESSION_LEVEL <= level <= MAX_COMPRESSION_LEVEL
}

/// The error reported for a level outside the accepted range.
pub open spec fn level_error(requested: int) -> ZstdError {
    ZstdError::InvalidLevel {
        requested: requested as i32,
        min: MIN_COMPRESSION_LEVEL,
        max: MAX_COMPRESSION_LEVEL,
    }
}

/// Compresses `data` into one complete frame at the given level
/// (`None`: the default level).
///
/// An out-of-range level is rejected before the codec is touched; every
/// other request succeeds, and the result is exactly the codec's frame for
/// `data`, carrying `data` losslessly.
pub fn compress(data: &[u8], level: Option<i32>) -> (r: Result<Vec<u8>, ZstdError>)
    ensures
        !valid_level(effective_level(level)) ==> r == Err::<Vec<u8>, ZstdError>(
            level_error(effective_level(level)),
        ),
        valid_level(effective_level(level)) ==> (r matches Ok(out) && out@ == codec::zstd_frame(
            data@,
            Seq::<u8>::empty(),
            effective_level(level),
        ) && codec::zstd_unframe(out@, Seq::<u8>::empty()) == Some(data@)),
{
    let lvl: i32 = match level {
        Some(l) => l,
        None => DEFAULT_COMPRESSION_LEVEL,
    };
    if lvl < MIN_COMPRESSION_LEVEL || lvl > MAX_COMPRESSION_LEVEL {
        return Err(ZstdError::InvalidLevel {
            requested: lvl,
            min: MIN_COMPRESSION_LEVEL,
            max: MAX_COMPRESSION_LEVEL,
        });
    }
    let mut enc = match codec::encoder_new(lvl) {
        Ok(e) => e,
        Err(_) => {
            return Err(ZstdError::EncoderInitError);
        },
    };
    match codec::encoder_write(&mut enc, data) {
        Ok(u) => {},
        Err(_) => {
            return Err(ZstdError::WriteError);
        },
    }
    proof {
        assert(Seq::<u8>::empty() + data@ =~= data@);
    }
    match codec::encoder_finish(enc) {
        Ok(out) => Ok(out),
        Err(_) => Err(ZstdError::WriteError),
    }
}

/// Compresses `data` like [`compress`], but with the encoder bound to the
/// raw dictionary `dict`, used verbatim (no training step).
///
/// With a valid level the call succeeds exactly when the dictionary loads;
/// a dictionary the codec refuses is reported as `EncoderInitError`,
/// whichever internal step the codec detects it at.
pub fn compress_with_dict(data: &[u8], dict: &[u8], level: Option<i32>) -> (r: Result<
    Vec<u8>,
    ZstdError,
>)
    ensures
        !valid_level(effective_level(level)) ==> r == Err::<Vec<u8>, ZstdError>(
            level_error(effective_level(level)),
        ),
        valid_level(effective_level(level)) ==> (r is Ok <==> codec::dict_loads(dict@)),
        valid_level(effective_level(level)) ==> match r {
            Ok(out) => out@ == codec::zstd_frame(data@, dict@, effective_level(level))
                && codec::zstd_unframe(out@, dict@) == Some(data@),
            Err(e) => e == ZstdError::EncoderInitError,
        },
{
    let lvl: i32 = match level {
        Some(l) => l,
        None => DEFAULT_COMPRESSION_LEVEL,
    };
    if lvl < MIN_COMPRESSION_LEVEL || lvl > MAX_COMPRESSION_LEVEL {
        return Err(ZstdError::InvalidLevel {
            requested: lvl,
            min: MIN_COMPRESSION_LEVEL,
            max: MAX_COMPRESSION_LEVEL,
        });
    }
    let mut enc = match codec::encoder_new_with_dict(dict, lvl) {
        Ok(e) => e,
        Err(_) => {
            return Err(ZstdError::EncoderInitError);
        },
    };
    match codec::encoder_write(&mut enc, data) {
        Ok(u) => {},
        Err(_) => {
            return Err(ZstdError::EncoderInitError);
        },
    }
    proof {
        assert(Seq::<u8>::empty() + data@ =~= data@);
    }
    match codec::encoder_finish(enc) {
        Ok(out) => Ok(out),
        Err(_) => Err(ZstdError::EncoderInitError),
    }
}

/// Decompresses one complete compressed buffer.
///
/// Succeeds exactly on the buffers the codec can parse — in particular on
/// every frame [`compress`] emits — and then returns exactly the recovered
/// payload; anything else is reported as `CorruptStream`, never as garbage
/// output.
pub fn decompress(compressed_data: &[u8]) -> (r: Result<Vec<u8>, ZstdError>)
    ensures
        match r {
            Ok(out) => codec::zstd_unframe(compressed_data@, Seq::<u8>::empty()) == Some(out@),
            Err(e) => e == ZstdError::CorruptStream && codec::zstd_unframe(
                compressed_data@,
                Seq::<u8>::empty(),
            ) is None,
        },
{
    let mut dec = match codec::decoder_new(compressed_data) {
        Ok(d) => d,
        Err(_) => {
            return Err(ZstdError::DecoderInitError);
        },
    };
    match codec::decoder_read_to_end(&mut dec) {
        Ok(out) => {
            proof {
                assert(codec::decoder_plain(dec).subrange(
                    0,
                    codec::decoder_plain(dec).len() as int,
                ) =~= codec::decoder_plain(dec));
            }
            Ok(out)
        },
        Err(_) => Err(ZstdError::CorruptStream),
    }
}

/// Decompresses like [`decompress`], but with the decoder bound to the raw
/// dictionary `dict`, which must be the one used when compressing.
///
/// Succeeds exactly when the dictionary loads and the buffer parses under
/// it — so on every frame [`compress_with_dict`] emits for that dictionary.
/// Each failure names its culprit: `DecoderInitError` for a dictionary the
/// codec refuses, `CorruptStream` for a buffer that does not parse.
pub fn decompress_with_dict(data: &[u8], dict: &[u8]) -> (r: Result<Vec<u8>, ZstdError>)
    ensures
        match r {
            Ok(out) => codec::dict_loads(dict@) && codec::zstd_unframe(data@, dict@) == Some(out@),
            Err(e) => (e == ZstdError::DecoderInitError && !codec::dict_loads(dict@)) || (e
                == ZstdError::CorruptStream && codec::dict_loads(dict@) && codec::zstd_unframe(
                data@,
                dict@,
            ) is None),
        },
{
    let mut dec = match codec::decoder_new_with_dict(data, dict) {
        Ok(d) => d,
        Err(_) => {
            return Err(ZstdError::DecoderInitError);
        },
    };
    match codec::decoder_read_to_end(&mut dec) {
        Ok(out) => {
            proof {
                assert(codec::decoder_plain(dec).subrange(
                    0,
                    codec::decoder_plain(dec).len() as int,
                ) =~= codec::decoder_plain(dec));
            }
            Ok(out)
        },
        Err(_) => Err(ZstdError::CorruptStream),
    }
}

/// The worst-case size of a frame for an input of `n` bytes, as the codec
/// documents it: the input, one byte per 256 of overhead, and for inputs
/// under 128 KiB a margin shrinking from 64 bytes to none.
pub open spec fn compress_bound_exact(n: int) -> int {
    n + n / 256 + if n < 131072 {
        (131072 - n) / 2048
    } else {
        0
    }
}

/// The documented worst-case bound never undercuts the input size.
pub proof fn lemma_compress_bound_ge(n: int)
    requires
        0 <= n,
    ensures
        compress_bound_exact(n) >= n,
{
}

/// Stateless entry points bundled under one name, mirroring the free
/// functions and adding the size and ratio utilities.
pub struct Zstd {}

impl Zstd {
    /// One-shot compression; see [`compress`].
    pub fn compress(data: &[u8], level: Option<i32>) -> (r: Result<Vec<u8>, ZstdError>)
        ensures
            !valid_level(effective_level(level)) ==> r == Err::<Vec<u8>, ZstdError>(
                level_error(effective_level(level)),
            ),
            valid_level(effective_level(level)) ==> (r matches Ok(out) && out@
                == codec::zstd_frame(data@, Seq::<u8>::empty(), effective_level(level))
                && codec::zstd_unframe(out@, Seq::<u8>::empty()) == Some(data@)),
    {
        compress(data, level)
    }

    /// One-shot compression with a dictionary; see [`compress_with_dict`].
    pub fn compress_with_dict(data: &[u8], dict: &[u8], level: Option<i32>) -> (r: Result<
        Vec<u8>,
        ZstdError,
    >)
        ensures
            !valid_level(effective_level(level)) ==> r == Err::<Vec<u8>, ZstdError>(
                level_error(effective_level(level)),
            ),
            valid_level(effective_level(level)) ==> (r is Ok <==> codec::dict_loads(dict@)),
            valid_level(effective_level(level)) ==> match r {
                Ok(out) => out@ == codec::zstd_frame(data@, dict@, effective_level(level))
                    && codec::zstd_unframe(out@, dict@) == Some(data@),
                Err(e) => e == ZstdError::EncoderInitError,
            },
    {
        compress_with_dict(data, dict, level)
    }

    /// One-shot decompression; see [`decompress`].
    pub fn decompress(compressed_data: &[u8]) -> (r: Result<Vec<u8>, ZstdError>)
        ensures
            match r {
                Ok(out) => codec::zstd_unframe(compressed_data@, Seq::<u8>::empty()) == Some(out@),
                Err(e) => e == ZstdError::CorruptStream && codec::zstd_unframe(
                    compressed_data@,
                    Seq::<u8>::empty(),
                ) is None,
            },
    {
        decompress(compressed_data)
    }

    /// One-shot decompression with a dictionary; see [`decompress_with_dict`].
    pub fn decompress_with_dict(compressed_data: &[u8], dict: &[u8]) -> (r: Result<
        Vec<u8>,
        ZstdError,
    >)
        ensures
            match r {
                Ok(out) => codec::dict_loads(dict@) && codec::zstd_unframe(compressed_data@, dict@)
                    == Some(out@),
                Err(e) => (e == ZstdError::DecoderInitError && !codec::dict_loads(dict@)) || (e
                    == ZstdError::CorruptStream && codec::dict_loads(dict@) && codec::zstd_unframe(
                    compressed_data@,
                    dict@,
                ) is None),
            },
    {
        decompress_with_dict(compressed_data, dict)
    }

    /// The recommended default compression level.
    pub fn default_compression_level() -> (r: i32)
        ensures
            r == DEFAULT_COMPRESSION_LEVEL,
    {
        DEFAULT_COMPRESSION_LEVEL
    }

    /// The minimum accepted compression level.
    pub fn min_compression_level() -> (r: i32)
        ensures
            r == MIN_COMPRESSION_LEVEL,
    {
        MIN_COMPRESSION_LEVEL
    }

    /// The maximum accepted compression level.
    pub fn max_compression_level() -> (r: i32)
        ensures
            r == MAX_COMPRESSION_LEVEL,
    {
        MAX_COMPRESSION_LEVEL
    }

    /// A safe upper estimate of the compressed size for an input of
    /// `input_size` bytes, for pre-sizing output buffers.
    ///
    /// This is the codec's documented worst-case expansion formula, saturated
    /// at the machine's word range; either way it is never below
    /// `input_size`.
    pub fn compress_bound(input_size: usize) -> (r: usize)
        ensures
            r >= input_size,
            compress_bound_exact(input_size as int) <= usize::MAX ==> r == compress_bound_exact(
                input_size as int,
            ),
            compress_bound_exact(input_size as int) > usize::MAX ==> r == usize::MAX,
    {
        let extra: usize = input_size / 256;
        if input_size < 131072 {
            let margin: usize = (131072 - input_size) / 2048;
            input_size + extra + margin
        } else {
            if input_size <= usize::MAX - extra {
                input_size + extra
            } else {
                usize::MAX
            }
        }
    }

    /// The compression ratio `compressed_size / original_size`, as an exact
    /// fraction `(numerator, denominator)`; `(0, 1)` when `original_size` is
    /// zero, keeping the function total.
    ///
    /// Smaller is better compression.
    pub fn compression_ratio(original_size: usize, compressed_size: usize) -> (r: (usize, usize))
        ensures
            original_size == 0 ==> r == (0usize, 1usize),
            original_size != 0 ==> r == (compressed_size, original_size),
    {
        if original_size == 0 {
            (0, 1)
        } else {
            (compressed_size, original_size)
        }
    }

    /// The space savings `(1 - compressed_size / original_size) * 100`, as an
    /// exact fraction `(numerator, denominator)`; `(0, 1)` when
    /// `original_size` is zero.
    ///
    /// The numerator is negative when the data expanded.
    pub fn space_savings(original_size: usize, compressed_size: usize) -> (r: (i128, i128))
        ensures
            original_size == 0 ==> r == (0i128, 1i128),
            original_size != 0 ==> r.0 == (original_size - compressed_size) * 100 && r.1
                == original_size as i128,
    {
        if original_size == 0 {
            (0, 1)
        } else {
            ((original_size as i128 - compressed_size as i128) * 100, original_size as i128)
        }
    }
}

} // verus!
