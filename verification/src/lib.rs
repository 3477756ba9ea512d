//! A streaming session layer over the Zstandard codec.
//!
//! The codec itself (entropy coding, frame format) is consumed as an opaque
//! capability through a small trusted boundary in [`codec`]; everything above
//! it is verified: one-shot compression and decompression with and without a
//! dictionary ([`facade`]), incremental sessions with strict lifecycle
//! guarantees ([`compressor`], [`decompressor`]), and pure size and ratio
//! utilities.

pub mod codec;
pub mod compressor;
pub mod decompressor;
pub mod errors;
pub mod facade;

pub use compressor::{compress_chunked, ZstdCompressor};
pub use decompressor::{decompress_chunked, ZstdDecompressor};
pub use errors::ZstdError;
pub use facade::{compress, compress_with_dict, decompress, decompress_with_dict, Zstd};
