use vstd::prelude::*;

verus! {

/// Everything that can go wrong at the compression boundary, as a typed
/// error rather than an uncontrolled abort.
///
/// Every fallible operation returns its error to the immediate caller;
/// nothing is retried, logged or swallowed.
#[derive(Clone, Copy, Debug, PartialEq, Eq, Structural)]
pub enum ZstdError {
    /// The requested compression level lies outside the accepted range.
    /// Detected before the codec is touched.
    InvalidLevel { requested: i32, min: i32, max: i32 },
    /// The codec refused to open an encoder.
    EncoderInitError,
    /// The codec refused to open a decoder.
    DecoderInitError,
    /// The encoder rejected appended bytes.  Part of the boundary's
    /// taxonomy, though the in-memory encoder is proven never to report it.
    WriteError,
    /// The decoder could not produce the remaining output.
    ReadError,
    /// The decoder could not make sense of the compressed bytes.
    CorruptStream,
    /// An operation was attempted on a session past its terminal state.
    AlreadyFinalized,
}

} // verus!
