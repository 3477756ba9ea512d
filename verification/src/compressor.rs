//! The streaming compression session: an open encoder fed chunk by chunk,
//! producing the complete frame exactly once on finalize.

use vstd::prelude::*;

use crate::codec;
use crate::errors::ZstdError;
use crate::facade::{
    effective_level, level_error, valid_level, DEFAULT_COMPRESSION_LEVEL, MAX_COMPRESSION_LEVEL,
    MIN_COMPRESSION_LEVEL,
};

verus! {

/// The abstract state of a compression session.
///
/// `Open` holds the validated level and the bytes absorbed so far; feeding
/// cannot fault, since the encoder works into an in-memory sink.
/// `Finalized` is terminal and absorbing.
pub enum CompressorModel {
    Open { level: int, fed: Seq<u8> },
    Finalized,
}

/// A streaming compressor: owns one open encoder, absorbs successive chunks,
/// and emits the complete compressed frame exactly once on [`finalize`].
///
/// [`finalize`]: ZstdCompressor::finalize
pub struct ZstdCompressor {
    encoder: Option<codec::CodecEncoder>,
}

impl View for ZstdCompressor {
    type V = CompressorModel;

    closed spec fn view(&self) -> CompressorModel {
        match self.encoder {
            Some(e) => CompressorModel::Open {
                level: codec::encoder_level(e),
                fed: codec::encoder_fed(e),
            },
            None => CompressorModel::Finalized,
        }
    }
}

impl ZstdCompressor {
    /// A session is well formed when its open encoder carries no dictionary
    /// (which always loads) and a level in the accepted range.
    pub closed spec fn wf(&self) -> bool {
        match self.encoder {
            Some(e) => codec::encoder_dict(e) == Seq::<u8>::empty() && codec::dict_loads(
                codec::encoder_dict(e),
            ) && valid_level(codec::encoder_level(e)),
            None => true,
        }
    }

    /// Opens a streaming compressor at the given level (`None`: the default
    /// level), with nothing fed yet.
    pub fn new(level: Option<i32>) -> (r: Result<ZstdCompressor, ZstdError>)
        ensures
            !valid_level(effective_level(level)) ==> r == Err::<ZstdCompressor, ZstdError>(
                level_error(effective_level(level)),
            ),
            valid_level(effective_level(level)) ==> (r matches Ok(c) && c.wf() && c@ == (
            CompressorModel::Open { level: effective_level(level), fed: Seq::<u8>::empty() })),
    {
        let lvl: i32 = match level {
            Some(l) => l,
            None => DEFAULT_COMPRESSION_LEVEL,
        };
        if lvl < MIN_COMPRESSION_LEVEL || lvl > MAX_COMPRESSION_LEVEL {
            return Err(ZstdError::InvalidLevel {
                requested: lvl,
                min: MIN_COMPRESSION_LEVEL,
                max: MAX_COMPRESSION_LEVEL,
            });
        }
        match codec::encoder_new(lvl) {
            Ok(e) => Ok(ZstdCompressor { encoder: Some(e) }),
            Err(_) => Err(ZstdError::EncoderInitError),
        }
    }

    /// Appends one chunk to the in-flight frame.  No compressed output is
    /// addressable before [`finalize`]; this is a write, not a flush.
    ///
    /// From `Open` the call succeeds — the encoder works into an in-memory
    /// sink, which cannot fault — and appends exactly the chunk.  Past
    /// `Finalized` the call fails with `AlreadyFinalized` and changes
    /// nothing.
    ///
    /// [`finalize`]: ZstdCompressor::finalize
    pub fn compress_chunk(&mut self, data: &[u8]) -> (r: Result<(), ZstdError>)
        requires
            old(self).wf(),
        ensures
            final(self).wf(),
            match old(self)@ {
                CompressorModel::Open { level, fed } => r == Ok::<(), ZstdError>(())
                    && final(self)@ == (CompressorModel::Open { level, fed: fed + data@ }),
                CompressorModel::Finalized => r == Err::<(), ZstdError>(ZstdError::AlreadyFinalized)
                    && final(self)@ == CompressorModel::Finalized,
            },
    {
        match &mut self.encoder {
            Some(enc) => {
                let res = codec::encoder_write(enc, data);
                match res {
                    Ok(u) => Ok(()),
                    Err(_) => Err(ZstdError::WriteError),
                }
            },
            None => Err(ZstdError::AlreadyFinalized),
        }
    }

    /// Signals end of input, consumes the encoder, and returns the complete
    /// compressed frame for everything fed so far.  Exactly one call can
    /// succeed: the session is `Finalized` afterwards, whatever the result,
    /// and any further call fails with `AlreadyFinalized`.
    pub fn finalize(&mut self) -> (r: Result<Vec<u8>, ZstdError>)
        requires
            old(self).wf(),
        ensures
            final(self).wf(),
            final(self)@ == CompressorModel::Finalized,
            match old(self)@ {
                CompressorModel::Open { level, fed } => (r matches Ok(out) && out@
                    == codec::zstd_frame(fed, Seq::<u8>::empty(), level) && codec::zstd_unframe(
                    out@,
                    Seq::<u8>::empty(),
                ) == Some(fed)),
                CompressorModel::Finalized => r == Err::<Vec<u8>, ZstdError>(
                    ZstdError::AlreadyFinalized,
                ),
            },
    {
        match self.encoder.take() {
            Some(enc) => match codec::encoder_finish(enc) {
                Ok(out) => Ok(out),
                Err(_) => Err(ZstdError::WriteError),
            },
            None => Err(ZstdError::AlreadyFinalized),
        }
    }
}

/// Streaming equivalence, in executable form: feeding any ordered partition
/// of an input through a fresh session and finalizing emits exactly the
/// frame the one-shot path yields for the concatenation of the chunks.
pub fn compress_chunked(chunks: &Vec<Vec<u8>>, level: Option<i32>) -> (r: Result<
    Vec<u8>,
    ZstdError,
>)
    ensures
        !valid_level(effective_level(level)) ==> r == Err::<Vec<u8>, ZstdError>(
            level_error(effective_level(level)),
        ),
        valid_level(effective_level(level)) ==> (r matches Ok(out) && out@ == codec::zstd_frame(
            chunks@.map_values(|c: Vec<u8>| c@).flatten(),
            Seq::<u8>::empty(),
            effective_level(level),
        ) && codec::zstd_unframe(out@, Seq::<u8>::empty()) == Some(
            chunks@.map_values(|c: Vec<u8>| c@).flatten(),
        )),
{
    let ghost target: Seq<Seq<u8>> = chunks@.map_values(|c: Vec<u8>| c@);
    let mut session = match ZstdCompressor::new(level) {
        Ok(s) => s,
        Err(e) => {
            return Err(e);
        },
    };
    let mut i: usize = 0;
    proof {
        assert(target.subrange(0, 0).flatten() =~= Seq::<u8>::empty());
    }
    while i < chunks.len()
        invariant
            session.wf(),
            i <= chunks.len(),
            target == chunks@.map_values(|c: Vec<u8>| c@),
            valid_level(effective_level(level)),
            session@ == (CompressorModel::Open {
                level: effective_level(level),
                fed: target.subrange(0, i as int).flatten(),
            }),
        decreases chunks.len() - i,
    {
        let chunk: &Vec<u8> = &chunks[i];
        match session.compress_chunk(chunk.as_slice()) {
            Ok(u) => {
                proof {
                    let pre = target.subrange(0, i as int);
                    assert(target.subrange(0, i + 1) =~= pre.push(target[i as int]));
                    pre.lemma_flatten_push(target[i as int]);
                }
                i = i + 1;
            },
            Err(e) => {
                return Err(e);
            },
        }
    }
    proof {
        assert(target.subrange(0, chunks@.len() as int) =~= target);
    }
    session.finalize()
}

} // verus!
