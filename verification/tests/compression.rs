use thur_storage::compression::{
    codec_outcome, compress_data, decompress_data, lz4_outcome, CompressionAlgo, CompressionConfig,
    DriveCompressionState, Lz4Stage, ZSTD_DEFAULT_LEVEL,
};
use thur_storage::error::ObjectStoreError;

fn fixture() -> Vec<u8> {
    b"Hello, World! This is test data that should compress well. ".repeat(100)
}

#[test]
fn lz4_roundtrip() {
    let data = fixture();
    let c = compress_data(CompressionAlgo::Lz4, &data, 0).unwrap();
    assert!(c.len() < data.len(), "lz4 should shrink redundant text");
    let d = decompress_data(CompressionAlgo::Lz4, &c).unwrap();
    assert_eq!(d, data);
}

#[test]
fn zstd_roundtrip() {
    let data = fixture();
    let c = compress_data(CompressionAlgo::Zstd, &data, 3).unwrap();
    assert!(c.len() < data.len(), "zstd should shrink redundant text");
    let d = decompress_data(CompressionAlgo::Zstd, &c).unwrap();
    assert_eq!(d, data);
}

#[test]
fn algos_are_distinct_byte_streams() {
    let data = fixture();
    let lz4 = compress_data(CompressionAlgo::Lz4, &data, 0).unwrap();
    let zstd = compress_data(CompressionAlgo::Zstd, &data, 3).unwrap();
    assert_ne!(lz4, zstd);
}

#[test]
fn config_default_is_zstd_for_cloud() {
    let cfg = CompressionConfig::default();
    assert_eq!(cfg.algorithm, Some(CompressionAlgo::Zstd));
    assert!(cfg.enabled());

    let off = CompressionConfig::disabled();
    assert_eq!(off.algorithm, None);
    assert!(!off.enabled());
}

#[test]
fn drive_default_is_disabled() {
    let st = DriveCompressionState::default();
    assert!(!st.dce);
    assert!(!st.compress_on_write());
}

#[test]
fn drive_enabled_default_algo_is_lz4() {
    let st = DriveCompressionState::enabled();
    assert!(st.dce);
    assert_eq!(st.algorithm, CompressionAlgo::Lz4);
}

#[test]
fn algo_as_str_and_display_cover_every_variant() {
    assert_eq!(CompressionAlgo::Lz4.as_str(), "lz4");
    assert_eq!(CompressionAlgo::Zstd.as_str(), "zstd");
    assert_eq!(CompressionAlgo::Sldc.as_str(), "sldc");
    assert_eq!(format!("{}", CompressionAlgo::Lz4.as_str()), "lz4");
    assert_eq!(format!("{}", CompressionAlgo::Zstd.as_str()), "zstd");
    assert_eq!(format!("{}", CompressionAlgo::Sldc.as_str()), "sldc");
}

#[test]
fn sldc_compress_and_decompress_are_unimplemented() {
    let c = compress_data(CompressionAlgo::Sldc, b"data", 3);
    assert!(matches!(c, Err(ObjectStoreError::Compression(_))));
    let d = decompress_data(CompressionAlgo::Sldc, b"data");
    assert!(matches!(d, Err(ObjectStoreError::Compression(_))));
}

#[test]
fn compression_config_new_carries_fields() {
    let cfg = CompressionConfig::new(Some(CompressionAlgo::Zstd), 9);
    assert_eq!(cfg.algorithm, Some(CompressionAlgo::Zstd));
    assert_eq!(cfg.level, 9);
    assert!(cfg.enabled());

    let off = CompressionConfig::new(None, 3);
    assert!(!off.enabled());
}

#[test]
fn drive_compression_state_constructors() {
    let with_algo = DriveCompressionState::enabled_with(CompressionAlgo::Zstd);
    assert!(with_algo.dce);
    assert_eq!(with_algo.algorithm, CompressionAlgo::Zstd);
    assert_eq!(with_algo.level, ZSTD_DEFAULT_LEVEL);

    let with_level = DriveCompressionState::enabled_with_level(CompressionAlgo::Zstd, 19);
    assert!(with_level.dce);
    assert_eq!(with_level.algorithm, CompressionAlgo::Zstd);
    assert_eq!(with_level.level, 19);
    assert!(with_level.compress_on_write());

    let off = DriveCompressionState::disabled();
    assert!(!off.dce);
    assert_eq!(off.algorithm, CompressionAlgo::Lz4);
    assert!(!off.compress_on_write());
}

#[test]
fn test_compression_round_trip() {
    let test_data = vec![0u8; 1024];

    let compressed = zstd::encode_all(&test_data[..], 3).unwrap();
    assert!(
        compressed.len() < test_data.len(),
        "Compressed data should be smaller"
    );

    let decompressed = zstd::decode_all(&compressed[..]).unwrap();
    assert_eq!(
        decompressed, test_data,
        "Decompressed data should match original"
    );
    // The library speaks the same format.
    assert_eq!(
        decompress_data(CompressionAlgo::Zstd, &compressed).unwrap(),
        test_data
    );
}

#[test]
fn empty_input_survives_every_codec() {
    for algo in [CompressionAlgo::Lz4, CompressionAlgo::Zstd] {
        let c = compress_data(algo, &[], 3).unwrap();
        assert!(!c.is_empty());
        assert!(decompress_data(algo, &c).unwrap().is_empty());
    }
}

#[test]
fn decoding_does_not_depend_on_the_level() {
    let data = fixture();
    for level in [1, 3, 9, 19] {
        let c = compress_data(CompressionAlgo::Zstd, &data, level).unwrap();
        assert_eq!(decompress_data(CompressionAlgo::Zstd, &c).unwrap(), data);
    }
}

#[test]
fn garbage_is_refused_with_the_codec_named() {
    match decompress_data(CompressionAlgo::Zstd, b"not a frame") {
        Err(ObjectStoreError::Compression(m)) => assert!(m.starts_with("zstd decode: ")),
        other => panic!("expected Compression, got {other:?}"),
    }
    match decompress_data(CompressionAlgo::Lz4, b"not a frame") {
        Err(ObjectStoreError::Compression(m)) => assert!(m.starts_with("lz4 decode: ")),
        other => panic!("expected Compression, got {other:?}"),
    }
}

#[test]
fn codec_failures_carry_their_stage() {
    assert_eq!(
        lz4_outcome(Err((Lz4Stage::Write, "full".to_string()))),
        Err(ObjectStoreError::Compression("lz4 write: full".to_string()))
    );
    assert_eq!(
        lz4_outcome(Err((Lz4Stage::Finish, "full".to_string()))),
        Err(ObjectStoreError::Compression("lz4 finish: full".to_string()))
    );
    assert_eq!(
        codec_outcome("zstd encode: ", Err("bad".to_string())),
        Err(ObjectStoreError::Compression("zstd encode: bad".to_string()))
    );
    assert_eq!(codec_outcome("zstd encode: ", Ok(vec![1, 2])), Ok(vec![1, 2]));
}
