//! The streaming decompression session: a decoder over one complete
//! compressed buffer, yielding decompressed bytes in caller-bounded
//! increments.

use vstd::prelude::*;

use crate::codec;
use crate::errors::ZstdError;

verus! {

/// The abstract state of a decompression session.
///
/// `Open` holds the compressed input, the decompressed stream it determines,
/// and how much of that stream has been yielded.  A codec fault while
/// reading leaves the session `Faulted`: still open, but with its position no
/// longer accounted for.  `Finalized` is terminal and absorbing.
pub enum DecompressorModel {
    Open { compressed: Seq<u8>, plain: Seq<u8>, pos: int },
    Faulted,
    Finalized,
}

/// The decompressed stream of an open session, or the empty sequence past
/// that state.
pub open spec fn model_plain(m: DecompressorModel) -> Seq<u8> {
    match m {
        DecompressorModel::Open { plain, .. } => plain,
        _ => Seq::<u8>::empty(),
    }
}

/// A streaming decompressor: owns one decoder bound to a complete compressed
/// buffer, yields decompressed bytes in bounded increments, and can drain to
/// completion exactly once via [`finalize`].
///
/// [`finalize`]: ZstdDecompressor::finalize
pub struct ZstdDecompressor {
    decoder: Option<zstd::stream::read::Decoder<'static, std::io::Cursor<Vec<u8>>>>,
    clean: Ghost<bool>,
}

impl View for ZstdDecompressor {
    type V = DecompressorModel;

    closed spec fn view(&self) -> DecompressorModel {
        match self.decoder {
            Some(d) => if self.clean@ {
                DecompressorModel::Open {
                    compressed: codec::decoder_frame(d),
                    plain: codec::decoder_plain(d),
                    pos: codec::decoder_pos(d),
                }
            } else {
                DecompressorModel::Faulted
            },
            None => DecompressorModel::Finalized,
        }
    }
}

impl ZstdDecompressor {
    /// A session is well formed when its open decoder carries no dictionary
    /// and, while no fault has occurred, a position inside its stream.
    pub closed spec fn wf(&self) -> bool {
        match self.decoder {
            Some(d) => codec::decoder_dict(d) == Seq::<u8>::empty() && (self.clean@ ==> 0
                <= codec::decoder_pos(d) <= codec::decoder_plain(d).len()),
            None => true,
        }
    }

    /// Opens a streaming decompressor over the entire compressed buffer
    /// (input is not fed incrementally; only the output side is streamed).
    ///
    /// Opening always succeeds: it does not parse the input, so a malformed
    /// buffer is reported by the reads that follow.
    pub fn new(compressed_data: &[u8]) -> (r: Result<ZstdDecompressor, ZstdError>)
        ensures
            r matches Ok(s) && s.wf() && (s@ matches DecompressorModel::Open {
                compressed,
                plain,
                pos,
            } && compressed == compressed_data@ && pos == 0 && (codec::zstd_unframe(
                compressed_data@,
                Seq::<u8>::empty(),
            ) matches Some(p) ==> plain == p)),
    {
        match codec::decoder_new(compressed_data) {
            Ok(d) => Ok(ZstdDecompressor { decoder: Some(d), clean: Ghost(true) }),
            Err(_) => Err(ZstdError::DecoderInitError),
        }
    }

    /// Pulls up to `max_output_size` decompressed bytes, in order.
    ///
    /// A result shorter than requested is normal; an empty result (for a
    /// positive request) signals end of stream and is not an error — the
    /// whole input has then been parsed and the payload delivered.  On
    /// well-formed input, and for a zero-sized request, the call succeeds;
    /// `CorruptStream` comes exactly from malformed input.  The call never
    /// transitions the session: it may be repeated, also past end of stream,
    /// but not after [`finalize`].
    ///
    /// [`finalize`]: ZstdDecompressor::finalize
    pub fn decompress_chunk(&mut self, max_output_size: usize) -> (r: Result<Vec<u8>, ZstdError>)
        requires
            old(self).wf(),
        ensures
            final(self).wf(),
            match old(self)@ {
                DecompressorModel::Open { compressed, plain, pos } => (codec::zstd_unframe(
                    compressed,
                    Seq::<u8>::empty(),
                ) is Some ==> r is Ok) && (max_output_size == 0 ==> r is Ok) && match r {
                    Ok(out) => out@.len() <= max_output_size && pos + out@.len() <= plain.len()
                        && out@ == plain.subrange(pos, pos + out@.len()) && final(self)@ == (
                    DecompressorModel::Open {
                        compressed,
                        plain,
                        pos: pos + out@.len(),
                    }) && (max_output_size > 0 && out@.len() == 0 ==> pos == plain.len()
                        && codec::zstd_unframe(compressed, Seq::<u8>::empty()) == Some(plain)),
                    Err(e) => e == ZstdError::CorruptStream && codec::zstd_unframe(
                        compressed,
                        Seq::<u8>::empty(),
                    ) is None && final(self)@ == DecompressorModel::Faulted,
                },
                DecompressorModel::Faulted => final(self)@ == DecompressorModel::Faulted && (
                max_output_size == 0 ==> r is Ok) && match r {
                    Ok(out) => out@.len() <= max_output_size,
                    Err(e) => e == ZstdError::CorruptStream,
                },
                DecompressorModel::Finalized => r == Err::<Vec<u8>, ZstdError>(
                    ZstdError::AlreadyFinalized,
                ) && final(self)@ == DecompressorModel::Finalized,
            },
    {
        match &mut self.decoder {
            Some(dec) => {
                let res = codec::decoder_read(dec, max_output_size);
                match res {
                    Ok(out) => Ok(out),
                    Err(_) => {
                        self.clean = Ghost(false);
                        Err(ZstdError::CorruptStream)
                    },
                }
            },
            None => Err(ZstdError::AlreadyFinalized),
        }
    }

    /// Reads and returns all remaining decompressed bytes in one call,
    /// consuming the decoder.  Exactly one call can succeed: the session is
    /// `Finalized` afterwards, whatever the result, and any further call
    /// fails with `AlreadyFinalized`.
    pub fn finalize(&mut self) -> (r: Result<Vec<u8>, ZstdError>)
        requires
            old(self).wf(),
        ensures
            final(self).wf(),
            final(self)@ == DecompressorModel::Finalized,
            match old(self)@ {
                DecompressorModel::Open { compressed, plain, pos } => (codec::zstd_unframe(
                    compressed,
                    Seq::<u8>::empty(),
                ) is Some ==> r is Ok) && match r {
                    Ok(out) => out@ == plain.subrange(pos, plain.len() as int)
                        && codec::zstd_unframe(compressed, Seq::<u8>::empty()) == Some(plain),
                    Err(e) => e == ZstdError::ReadError && codec::zstd_unframe(
                        compressed,
                        Seq::<u8>::empty(),
                    ) is None,
                },
                DecompressorModel::Faulted => r matches Err(e) ==> e == ZstdError::ReadError,
                DecompressorModel::Finalized => r == Err::<Vec<u8>, ZstdError>(
                    ZstdError::AlreadyFinalized,
                ),
            },
    {
        match self.decoder.take() {
            Some(mut dec) => match codec::decoder_read_to_end(&mut dec) {
                Ok(out) => Ok(out),
                Err(_) => Err(ZstdError::ReadError),
            },
            None => Err(ZstdError::AlreadyFinalized),
        }
    }
}

/// Streaming equivalence, in executable form: pulling bounded chunks from a
/// fresh session until an empty result appears and concatenating them yields
/// exactly the one-shot decompression of the buffer.
pub fn decompress_chunked(compressed_data: &[u8], max_chunk_size: usize) -> (r: Result<
    Vec<u8>,
    ZstdError,
>)
    requires
        max_chunk_size > 0,
    ensures
        codec::zstd_unframe(compressed_data@, Seq::<u8>::empty()) is Some ==> r is Ok,
        match r {
            Ok(out) => codec::zstd_unframe(compressed_data@, Seq::<u8>::empty()) == Some(out@),
            Err(e) => e == ZstdError::CorruptStream && codec::zstd_unframe(
                compressed_data@,
                Seq::<u8>::empty(),
            ) is None,
        },
{
    let mut session = match ZstdDecompressor::new(compressed_data) {
        Ok(s) => s,
        Err(e) => {
            return Err(e);
        },
    };
    let ghost plain0: Seq<u8> = model_plain(session@);
    let mut out: Vec<u8> = Vec::new();
    let mut done: bool = false;
    while !done
        invariant
            session.wf(),
            max_chunk_size > 0,
            out@.len() <= plain0.len(),
            !done ==> session@ == (DecompressorModel::Open {
                compressed: compressed_data@,
                plain: plain0,
                pos: out@.len() as int,
            }),
            !done ==> out@ == plain0.subrange(0, out@.len() as int),
            done ==> codec::zstd_unframe(compressed_data@, Seq::<u8>::empty()) == Some(out@),
        decreases plain0.len() - out@.len() + (if done {
            0int
        } else {
            1int
        }),
    {
        match session.decompress_chunk(max_chunk_size) {
            Ok(mut chunk) => {
                if chunk.len() == 0 {
                    proof {
                        assert(plain0.subrange(0, plain0.len() as int) =~= plain0);
                    }
                    done = true;
                } else {
                    proof {
                        assert(plain0.subrange(0, out@.len() + chunk@.len() as int) =~= plain0.subrange(
                            0,
                            out@.len() as int,
                        ) + plain0.subrange(
                            out@.len() as int,
                            out@.len() + chunk@.len() as int,
                        ));
                    }
                    out.append(&mut chunk);
                }
            },
            Err(e) => {
                return Err(e);
            },
        }
    }
    Ok(out)
}

} // verus!
