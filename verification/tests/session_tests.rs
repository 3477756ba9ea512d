use zstd_session::{
    compress_chunked, decompress_chunked, Zstd, ZstdCompressor, ZstdDecompressor, ZstdError,
};

#[test]
fn test_streaming_compression() {
    let data = b"Streaming compression test data".to_vec();

    let mut compressor = ZstdCompressor::new(Some(6)).unwrap();

    let chunks = data.chunks(10).collect::<Vec<_>>();
    for chunk in chunks {
        compressor.compress_chunk(chunk).unwrap();
    }
    let compressed = compressor.finalize().unwrap();

    assert_eq!(data, Zstd::decompress(&compressed).unwrap());
}

#[test]
fn test_chunked_decompression() {
    let data = b"This is some test data that is intentionally longer to ensure streaming works across 
        multiple blocks, which is necessary to properly test the chunking logic of the ZstdDecompressor implementation.".to_vec();

    let compressed = Zstd::compress(&data, Some(6)).unwrap();

    let mut decompressor =
        ZstdDecompressor::new(&compressed).expect("Failed to create decompressor");

    let chunk_size = 10; // Request a small chunk size to force multiple calls
    let mut decompressed: Vec<u8> = Vec::new();

    loop {
        let chunk = decompressor
            .decompress_chunk(chunk_size)
            .expect("Decompress chunk failed");

        // Stop condition: empty chunk indicates EOF
        if chunk.is_empty() {
            break;
        }

        // Collect the chunk
        decompressed.extend_from_slice(&chunk);
    }

    // Verify
    assert_eq!(data, decompressed);
}

#[test]
fn test_streaming_matches_one_shot() {
    // Feeding a partition chunk by chunk must emit bytes identical to the
    // one-shot path over the concatenation.
    let data = b"Byte-identical output whatever the chunk boundaries are.".repeat(40);
    let one_shot = Zstd::compress(&data, Some(6)).unwrap();

    let mut session = ZstdCompressor::new(Some(6)).unwrap();
    for chunk in data.chunks(13) {
        session.compress_chunk(chunk).unwrap();
    }
    let streamed = session.finalize().unwrap();

    assert_eq!(one_shot, streamed);
}

#[test]
fn test_compress_chunked_matches_one_shot() {
    let data = b"The chunked driver and the one-shot path agree.".repeat(25);
    let chunks: Vec<Vec<u8>> = data.chunks(9).map(|c| c.to_vec()).collect();
    let chunked = compress_chunked(&chunks, Some(4)).unwrap();
    let one_shot = Zstd::compress(&data, Some(4)).unwrap();
    assert_eq!(chunked, one_shot);
}

#[test]
fn test_decompress_chunked_matches_one_shot() {
    let data = b"Chunked reads, concatenated, equal the one-shot payload.".repeat(30);
    let compressed = Zstd::compress(&data, Some(6)).unwrap();
    let chunked = decompress_chunked(&compressed, 17).unwrap();
    let one_shot = Zstd::decompress(&compressed).unwrap();
    assert_eq!(chunked, one_shot);
    assert_eq!(chunked, data);
}

#[test]
fn test_compressor_finalize_twice() {
    let mut compressor = ZstdCompressor::new(None).unwrap();
    compressor.compress_chunk(b"some data").unwrap();
    compressor.finalize().unwrap();
    assert_eq!(compressor.finalize().unwrap_err(), ZstdError::AlreadyFinalized);
}

#[test]
fn test_decompressor_finalize_twice() {
    let compressed = Zstd::compress(b"some data", None).unwrap();
    let mut decompressor = ZstdDecompressor::new(&compressed).unwrap();
    decompressor.finalize().unwrap();
    assert_eq!(decompressor.finalize().unwrap_err(), ZstdError::AlreadyFinalized);
}

#[test]
fn test_feed_after_finalize_fails() {
    let mut compressor = ZstdCompressor::new(None).unwrap();
    compressor.finalize().unwrap();
    assert_eq!(
        compressor.compress_chunk(b"too late").unwrap_err(),
        ZstdError::AlreadyFinalized
    );
}

#[test]
fn test_read_after_finalize_fails() {
    let compressed = Zstd::compress(b"payload", None).unwrap();
    let mut decompressor = ZstdDecompressor::new(&compressed).unwrap();
    decompressor.finalize().unwrap();
    assert_eq!(
        decompressor.decompress_chunk(10).unwrap_err(),
        ZstdError::AlreadyFinalized
    );
}

#[test]
fn test_compressor_invalid_level() {
    let err = match ZstdCompressor::new(Some(23)) {
        Ok(_) => panic!("an out-of-range level was accepted"),
        Err(e) => e,
    };
    assert_eq!(err, ZstdError::InvalidLevel { requested: 23, min: 1, max: 22 });
}

#[test]
fn test_decompressor_finalize_yields_all() {
    let data = b"Finalize returns everything the chunk reads have not taken yet.".repeat(10);
    let compressed = Zstd::compress(&data, None).unwrap();
    let mut decompressor = ZstdDecompressor::new(&compressed).unwrap();
    let first = decompressor.decompress_chunk(7).unwrap();
    let rest = decompressor.finalize().unwrap();
    let mut joined = first.clone();
    joined.extend_from_slice(&rest);
    assert_eq!(joined, data);
}

#[test]
fn test_zero_sized_read_is_not_eof() {
    let data = b"A zero-sized request yields nothing without ending the stream.";
    let compressed = Zstd::compress(data, None).unwrap();
    let mut decompressor = ZstdDecompressor::new(&compressed).unwrap();
    let empty = decompressor.decompress_chunk(0).unwrap();
    assert!(empty.is_empty());
    let chunk = decompressor.decompress_chunk(16).unwrap();
    assert!(!chunk.is_empty());
}

#[test]
fn test_reads_past_eof_stay_empty() {
    let compressed = Zstd::compress(b"short", None).unwrap();
    let mut decompressor = ZstdDecompressor::new(&compressed).unwrap();
    let mut collected: Vec<u8> = Vec::new();
    loop {
        let chunk = decompressor.decompress_chunk(8).unwrap();
        if chunk.is_empty() {
            break;
        }
        collected.extend_from_slice(&chunk);
    }
    // End of stream keeps yielding empty results without becoming an error.
    assert!(decompressor.decompress_chunk(8).unwrap().is_empty());
    assert!(decompressor.decompress_chunk(8).unwrap().is_empty());
    assert_eq!(collected, b"short");
}

#[test]
fn test_chunked_decompression_of_corrupt_input() {
    let mut decompressor = ZstdDecompressor::new(b"not a frame at all").unwrap();
    let err = loop {
        match decompressor.decompress_chunk(4) {
            Ok(chunk) => {
                if chunk.is_empty() {
                    panic!("corrupt input ended cleanly");
                }
            }
            Err(e) => break e,
        }
    };
    assert_eq!(err, ZstdError::CorruptStream);
}
