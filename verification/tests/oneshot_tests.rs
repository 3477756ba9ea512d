use zstd_session::{
    compress_with_dict, decompress_with_dict, Zstd, ZstdError,
};

#[test]
fn test_compress_decompress() {
    let data = b"Hello, World! This is a test string for ZSTD compression.";

    let compressed = Zstd::compress(data, None).unwrap();
    let decompressed = Zstd::decompress(&compressed).unwrap();

    assert_eq!(data, decompressed.as_slice());
}

#[test]
fn test_compress_decompress_with_dict() {
    let data = b"Hello, World! This is a test string for ZSTD compression.";

    let compressed = compress_with_dict(data, b"aaaaa", None).unwrap();
    let decompressed = decompress_with_dict(&compressed, b"aaaaa").unwrap();

    assert_eq!(data, decompressed.as_slice());
}

#[test]
fn test_compress_levels() {
    let data = b"Test data for compression level testing".repeat(100);

    for level in 1..=6 {
        let compressed = Zstd::compress(&data, Some(level)).unwrap();
        let decompressed = Zstd::decompress(&compressed).unwrap();
        assert_eq!(data, decompressed.as_slice());
    }
}

#[test]
fn test_empty_input_round_trip() {
    let compressed = Zstd::compress(b"", None).unwrap();
    // Even an empty payload gets a real frame: header and trailer bytes.
    assert!(!compressed.is_empty());
    let decompressed = Zstd::decompress(&compressed).unwrap();
    assert!(decompressed.is_empty());
}

#[test]
fn test_invalid_level_rejected() {
    let err = Zstd::compress(b"data", Some(0)).unwrap_err();
    assert_eq!(err, ZstdError::InvalidLevel { requested: 0, min: 1, max: 22 });

    let err = Zstd::compress(b"data", Some(23)).unwrap_err();
    assert_eq!(err, ZstdError::InvalidLevel { requested: 23, min: 1, max: 22 });

    let err = compress_with_dict(b"data", b"dict", Some(-7)).unwrap_err();
    assert_eq!(err, ZstdError::InvalidLevel { requested: -7, min: 1, max: 22 });
}

#[test]
fn test_default_level_matches_explicit() {
    let data = b"The default level must act exactly like the explicit default.";
    let implicit = Zstd::compress(data, None).unwrap();
    let explicit = Zstd::compress(data, Some(Zstd::default_compression_level())).unwrap();
    assert_eq!(implicit, explicit);
}

#[test]
fn test_decompress_garbage_fails() {
    let err = Zstd::decompress(b"definitely not a zstd frame").unwrap_err();
    assert_eq!(err, ZstdError::CorruptStream);
}

#[test]
fn test_decompress_truncated_fails() {
    let data = b"Some payload that compresses into a frame we can then truncate.";
    let compressed = Zstd::compress(data, None).unwrap();
    let truncated = &compressed[..compressed.len() - 2];
    let err = Zstd::decompress(truncated).unwrap_err();
    assert_eq!(err, ZstdError::CorruptStream);
}

#[test]
fn test_dict_round_trip_various_levels() {
    let dict = b"a sample dictionary: common words, common words, common words";
    let data = b"common words appear in this payload of common words";
    for level in [1, 6, 22] {
        let compressed = compress_with_dict(data, dict, Some(level)).unwrap();
        let decompressed = decompress_with_dict(&compressed, dict).unwrap();
        assert_eq!(data, decompressed.as_slice());
    }
}

#[test]
fn test_corrupt_dictionary_refused() {
    // Bytes carrying the dictionary magic but no complete dictionary are
    // rejected by the codec on both sides and reported as init failures.
    let bad_dict = [0x37u8, 0xA4, 0x30, 0xEC, 1, 2, 3, 4];
    let err = compress_with_dict(b"payload", &bad_dict, Some(3)).unwrap_err();
    assert_eq!(err, ZstdError::EncoderInitError);
    // Empty input skips the writes, so the deferred check fires at finish.
    let err = compress_with_dict(b"", &bad_dict, Some(3)).unwrap_err();
    assert_eq!(err, ZstdError::EncoderInitError);
    let frame = Zstd::compress(b"payload", None).unwrap();
    let err = decompress_with_dict(&frame, &bad_dict).unwrap_err();
    assert_eq!(err, ZstdError::DecoderInitError);
}

#[test]
fn test_level_bounds() {
    assert_eq!(Zstd::min_compression_level(), 1);
    assert_eq!(Zstd::max_compression_level(), 22);
    assert_eq!(Zstd::default_compression_level(), 6);
}
