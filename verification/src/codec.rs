//! The trusted boundary around the external Zstandard codec.
//!
//! Everything the rest of the crate knows about the codec is stated here, as
//! contracts over a handful of named results.  `zstd_frame` and `zstd_unframe`
//! name the bytes the codec produces and recovers; the `encoder_*` and
//! `decoder_*` functions name the abstract state of an open codec handle.
//! A plain (dictionary-less) handle is modelled as one whose dictionary is the
//! empty byte sequence, which is literally how the codec crate builds it:
//! `Encoder::new` and `Decoder::with_buffer` delegate to `with_dictionary`
//! with an empty slice.
//!
//! The decoder type is declared to Verus directly.  The encoder type cannot
//! be (its `Write` bound is a trait Verus does not know), so an open encoder
//! is held in a private field of [`CodecEncoder`] instead.
//!
//! Where the codec's source shows an operation can only fail on memory
//! allocation — everything on the encoding side runs over an in-memory sink,
//! and opening either handle merely builds a context — the contract states
//! that it succeeds, the same way vstd treats allocation in `Vec`.  The two
//! input-dependent failures that remain are loading a dictionary
//! ([`dict_loads`]) and decoding malformed input ([`zstd_unframe`])

use vstd::prelude::*;

verus! {

/// An open encoder of the external codec, writing the frame into an
/// in-memory sink.  Opaque to the verifier; its abstract state is given by
/// `encoder_level`, `encoder_dict` and `encoder_fed`.
#[verifier::external_body]
pub struct CodecEncoder {
    inner: zstd::stream::write::Encoder<'static, Vec<u8>>,
}

#[verifier::external_type_specification]
#[verifier::external_body]
#[verifier::reject_recursive_types(R)]
pub struct ExDecoder<'a, R>(zstd::stream::read::Decoder<'a, R>);

#[verifier::external_type_specification]
#[verifier::external_body]
#[verifier::reject_recursive_types(T)]
pub struct ExCursor<T>(std::io::Cursor<T>);

#[verifier::external_type_specification]
#[verifier::external_body]
pub struct ExIoError(std::io::Error);

/// The complete compressed frame the codec emits for `data`, compressed at
/// `level` with dictionary `dict` (the empty sequence meaning no dictionary).
/// The codec documents its output as a deterministic function of these three
/// alone, however the input is partitioned into writes.
pub uninterp spec fn zstd_frame(data: Seq<u8>, dict: Seq<u8>, level: int) -> Seq<u8>;

/// The payload the codec recovers from `frame` with dictionary `dict`:
/// `Some(payload)` when `frame` is a well-formed sequence of frames for that
/// dictionary, `None` otherwise.
pub uninterp spec fn zstd_unframe(frame: Seq<u8>, dict: Seq<u8>) -> Option<Seq<u8>>;

/// Whether the codec accepts `dict` as a dictionary: raw content always
/// loads; bytes carrying the dictionary magic load only if they form a
/// complete dictionary.  The same parse decides on both sides; the decoder
/// runs it when it opens, while the encoder defers it, so an encoder over a
/// rejected dictionary fails at its first write or finish instead.
pub uninterp spec fn dict_loads(dict: Seq<u8>) -> bool;

/// The compression level an open encoder was created with.
pub uninterp spec fn encoder_level(e: CodecEncoder) -> int;

/// The dictionary an open encoder was created with (empty: none).
pub uninterp spec fn encoder_dict(e: CodecEncoder) -> Seq<u8>;

/// The bytes successfully fed to an open encoder so far.
pub uninterp spec fn encoder_fed(e: CodecEncoder) -> Seq<u8>;

/// The compressed input an open decoder was created over.
pub uninterp spec fn decoder_frame(
    d: zstd::stream::read::Decoder<'static, std::io::Cursor<Vec<u8>>>,
) -> Seq<u8>;

/// The dictionary an open decoder was created with (empty: none).
pub uninterp spec fn decoder_dict(
    d: zstd::stream::read::Decoder<'static, std::io::Cursor<Vec<u8>>>,
) -> Seq<u8>;

/// The decompressed stream determined by a decoder's input and dictionary:
/// the full payload when the input is well formed, otherwise the bytes the
/// decoder can yield before it reports corruption.
pub uninterp spec fn decoder_plain(
    d: zstd::stream::read::Decoder<'static, std::io::Cursor<Vec<u8>>>,
) -> Seq<u8>;

/// How many bytes of `decoder_plain` the decoder has already yielded.
pub uninterp spec fn decoder_pos(
    d: zstd::stream::read::Decoder<'static, std::io::Cursor<Vec<u8>>>,
) -> int;

/// Relies on `zstd::stream::write::Encoder::new`: opens an encoder at the
/// given level over an in-memory sink, with no dictionary and nothing fed
/// yet.  Levels in the accepted range are passed through unclamped, and for
/// them opening only builds a context and cannot fail (allocation aside).
#[verifier::external_body]
pub(crate) fn encoder_new(level: i32) -> (r: Result<CodecEncoder, std::io::Error>)
    requires
        1 <= level <= 22,
    ensures
        r is Ok,
        r matches Ok(e) ==> encoder_level(e) == level && encoder_dict(e) == Seq::<u8>::empty()
            && encoder_fed(e) == Seq::<u8>::empty() && dict_loads(encoder_dict(e)),
{
    match zstd::stream::write::Encoder::new(Vec::new(), level) {
        Ok(inner) => Ok(CodecEncoder { inner }),
        Err(e) => Err(e),
    }
}

/// Relies on `zstd::stream::write::Encoder::with_dictionary`: as
/// `encoder_new`, but the encoder is bound to the given raw dictionary.
/// Opening records the dictionary without checking it and cannot fail
/// (allocation aside).
#[verifier::external_body]
pub(crate) fn encoder_new_with_dict(dict: &[u8], level: i32) -> (r: Result<
    CodecEncoder,
    std::io::Error,
>)
    requires
        1 <= level <= 22,
    ensures
        r is Ok,
        r matches Ok(e) ==> encoder_level(e) == level && encoder_dict(e) == dict@
            && encoder_fed(e) == Seq::<u8>::empty(),
{
    match zstd::stream::write::Encoder::with_dictionary(Vec::new(), level, dict) {
        Ok(inner) => Ok(CodecEncoder { inner }),
        Err(e) => Err(e),
    }
}

/// Relies on `std::io::Write::write_all` on the codec's encoder: on success
/// the whole chunk has been appended to the in-flight frame; the level and
/// dictionary of the handle are untouched either way.  The write loop only
/// runs the compression step and stores its output in the in-memory sink,
/// so its one input-dependent failure (allocation aside) is the deferred
/// dictionary check: a non-empty write succeeds exactly when the dictionary
/// loads, while an empty one returns without consulting the codec and
/// always succeeds.
#[verifier::external_body]
pub(crate) fn encoder_write(e: &mut CodecEncoder, data: &[u8]) -> (r: Result<(), std::io::Error>)
    ensures
        r is Ok <==> (data@.len() == 0 || dict_loads(encoder_dict(*old(e)))),
        encoder_level(*final(e)) == encoder_level(*old(e)),
        encoder_dict(*final(e)) == encoder_dict(*old(e)),
        r matches Ok(u) ==> encoder_fed(*final(e)) == encoder_fed(*old(e)) + data@,
{
    std::io::Write::write_all(&mut e.inner, data)
}

/// Relies on `zstd::stream::write::Encoder::finish`: signals end of input,
/// consumes the encoder, and on success returns the complete frame for
/// everything fed so far, which the codec can losslessly invert.  Like the
/// writes, it succeeds exactly when the dictionary loads (allocation aside).
#[verifier::external_body]
pub(crate) fn encoder_finish(e: CodecEncoder) -> (r: Result<Vec<u8>, std::io::Error>)
    ensures
        r is Ok <==> dict_loads(encoder_dict(e)),
        r matches Ok(out) ==> out@ == zstd_frame(encoder_fed(e), encoder_dict(e), encoder_level(e))
            && zstd_unframe(out@, encoder_dict(e)) == Some(encoder_fed(e)),
{
    e.inner.finish()
}

/// Relies on `zstd::stream::read::Decoder::with_buffer`: opens a decoder over
/// a complete compressed buffer, with no dictionary and nothing yielded yet.
/// Opening only builds a context — it does not parse the input, so it cannot
/// fail (allocation aside), and a malformed buffer is only reported by later
/// reads.
#[verifier::external_body]
pub(crate) fn decoder_new(compressed: &[u8]) -> (r: Result<
    zstd::stream::read::Decoder<'static, std::io::Cursor<Vec<u8>>>,
    std::io::Error,
>)
    ensures
        r is Ok,
        r matches Ok(d) ==> decoder_frame(d) == compressed@ && decoder_dict(d) == Seq::<u8>::empty()
            && decoder_pos(d) == 0
            && (zstd_unframe(compressed@, Seq::<u8>::empty()) matches Some(p) ==> decoder_plain(d)
                == p),
{
    zstd::stream::read::Decoder::with_buffer(std::io::Cursor::new(compressed.to_vec()))
}

/// Relies on `zstd::stream::read::Decoder::with_dictionary`: as
/// `decoder_new`, but the decoder is bound to the given raw dictionary.
/// Unlike the encoder, the decoder builds its dictionary tables when it
/// opens, so opening succeeds exactly when the dictionary loads; the input
/// itself is not parsed yet.
#[verifier::external_body]
pub(crate) fn decoder_new_with_dict(compressed: &[u8], dict: &[u8]) -> (r: Result<
    zstd::stream::read::Decoder<'static, std::io::Cursor<Vec<u8>>>,
    std::io::Error,
>)
    ensures
        r is Ok <==> dict_loads(dict@),
        r matches Ok(d) ==> decoder_frame(d) == compressed@ && decoder_dict(d) == dict@
            && decoder_pos(d) == 0
            && (zstd_unframe(compressed@, dict@) matches Some(p) ==> decoder_plain(d) == p),
{
    zstd::stream::read::Decoder::with_dictionary(std::io::Cursor::new(compressed.to_vec()), dict)
}

/// Relies on `std::io::Read::read` on the codec's decoder: on success it
/// yields the next bytes of the decompressed stream, in order, at most
/// `max_output_size` of them.  A successful empty read with room in the
/// buffer means the stream terminated cleanly, which the codec only reports
/// after parsing the whole input through its trailer.  Reading well-formed
/// input never fails (allocation aside); a zero-sized request returns empty
/// before the codec is consulted.
#[verifier::external_body]
pub(crate) fn decoder_read(
    d: &mut zstd::stream::read::Decoder<'static, std::io::Cursor<Vec<u8>>>,
    max_output_size: usize,
) -> (r: Result<Vec<u8>, std::io::Error>)
    ensures
        r is Err ==> max_output_size > 0 && zstd_unframe(
            decoder_frame(*old(d)),
            decoder_dict(*old(d)),
        ) is None,
        decoder_frame(*final(d)) == decoder_frame(*old(d)),
        decoder_dict(*final(d)) == decoder_dict(*old(d)),
        decoder_plain(*final(d)) == decoder_plain(*old(d)),
        r matches Ok(out) ==> out@.len() <= max_output_size
            && decoder_pos(*old(d)) + out@.len() <= decoder_plain(*old(d)).len()
            && out@ == decoder_plain(*old(d)).subrange(
            decoder_pos(*old(d)),
            decoder_pos(*old(d)) + out@.len(),
        ) && decoder_pos(*final(d)) == decoder_pos(*old(d)) + out@.len() && (max_output_size > 0
            && out@.len() == 0 ==> decoder_pos(*old(d)) == decoder_plain(*old(d)).len()
            && zstd_unframe(decoder_frame(*old(d)), decoder_dict(*old(d))) == Some(
            decoder_plain(*old(d)),
        )),
{
    let mut buffer = vec![0u8; max_output_size];
    let bytes_read = std::io::Read::read(d, &mut buffer)?;
    buffer.truncate(bytes_read);
    Ok(buffer)
}

/// Relies on `std::io::Read::read_to_end` on the codec's decoder: on success
/// everything left of the decompressed stream has been yielded and the input
/// was a well-formed frame for the decoder's dictionary, since the codec only
/// terminates cleanly after parsing it through its trailer.  Conversely,
/// draining well-formed input never fails (allocation aside).
#[verifier::external_body]
pub(crate) fn decoder_read_to_end(
    d: &mut zstd::stream::read::Decoder<'static, std::io::Cursor<Vec<u8>>>,
) -> (r: Result<Vec<u8>, std::io::Error>)
    ensures
        r is Err ==> zstd_unframe(decoder_frame(*old(d)), decoder_dict(*old(d))) is None,
        decoder_frame(*final(d)) == decoder_frame(*old(d)),
        decoder_dict(*final(d)) == decoder_dict(*old(d)),
        decoder_plain(*final(d)) == decoder_plain(*old(d)),
        r matches Ok(out) ==> out@ == decoder_plain(*old(d)).subrange(
            decoder_pos(*old(d)),
            decoder_plain(*old(d)).len() as int,
        ) && decoder_pos(*final(d)) == decoder_plain(*old(d)).len()
            && zstd_unframe(decoder_frame(*old(d)), decoder_dict(*old(d))) == Some(
            decoder_plain(*old(d)),
        ),
{
    let mut out: Vec<u8> = Vec::new();
    std::io::Read::read_to_end(d, &mut out)?;
    Ok(out)
}

} // verus!
