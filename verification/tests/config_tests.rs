//! The compression config mapper: token mapping, level ranges, defaults.

use fecr::config::{build_config, map_gzip_level, map_method, CompressionMethod};
use fecr::error::FcError;

#[test]
fn method_tokens_map_exactly() {
    assert_eq!(map_method(Some("bzip2")), Ok(CompressionMethod::Bzip2));
    assert_eq!(map_method(Some("bzip")), Ok(CompressionMethod::Bzip2));
    assert_eq!(map_method(Some("deflate")), Ok(CompressionMethod::Deflate));
    assert_eq!(map_method(Some("default")), Ok(CompressionMethod::Deflate));
    assert_eq!(map_method(Some("zstd")), Ok(CompressionMethod::Zstd));
    assert_eq!(map_method(Some("z")), Ok(CompressionMethod::Zstd));
    assert_eq!(map_method(None), Ok(CompressionMethod::Deflate));
}

#[test]
fn method_tokens_are_case_sensitive_and_exact() {
    assert_eq!(
        map_method(Some("Bzip2")),
        Err(FcError::UnsupportedCompressionMethod)
    );
    assert_eq!(
        map_method(Some("rot13")),
        Err(FcError::UnsupportedCompressionMethod)
    );
    assert_eq!(
        map_method(Some("")),
        Err(FcError::UnsupportedCompressionMethod)
    );
}

#[test]
fn deflate_level_minus_one_fails() {
    assert_eq!(
        build_config(Some("deflate"), Some(-1)),
        Err(FcError::InvalidCompressionLevel)
    );
}

#[test]
fn zstd_level_23_fails() {
    assert_eq!(
        build_config(Some("zstd"), Some(23)),
        Err(FcError::InvalidCompressionLevel)
    );
}

#[test]
fn zstd_level_zero_means_default() {
    let explicit_zero = build_config(Some("zstd"), Some(0)).unwrap();
    let absent = build_config(Some("zstd"), None).unwrap();
    assert_eq!(explicit_zero, absent);
    assert_eq!(explicit_zero.level, 3);
    assert_eq!(explicit_zero.method, CompressionMethod::Zstd);
}

#[test]
fn level_range_bounds() {
    assert_eq!(build_config(Some("deflate"), Some(0)).unwrap().level, 0);
    assert_eq!(build_config(Some("deflate"), Some(9)).unwrap().level, 9);
    assert_eq!(
        build_config(Some("deflate"), Some(10)),
        Err(FcError::InvalidCompressionLevel)
    );
    assert_eq!(build_config(Some("bzip2"), Some(9)).unwrap().level, 9);
    assert_eq!(
        build_config(Some("bzip2"), Some(-1)),
        Err(FcError::InvalidCompressionLevel)
    );
    assert_eq!(build_config(Some("zstd"), Some(-7)).unwrap().level, -7);
    assert_eq!(build_config(Some("zstd"), Some(22)).unwrap().level, 22);
    assert_eq!(
        build_config(Some("zstd"), Some(-8)),
        Err(FcError::InvalidCompressionLevel)
    );
}

#[test]
fn default_levels_per_method() {
    assert_eq!(build_config(None, None).unwrap().level, 6);
    assert_eq!(
        build_config(None, None).unwrap().method,
        CompressionMethod::Deflate
    );
    assert_eq!(build_config(Some("bzip2"), None).unwrap().level, 6);
    assert_eq!(build_config(Some("zstd"), None).unwrap().level, 3);
}

#[test]
fn method_error_takes_precedence_over_level() {
    assert_eq!(
        build_config(Some("rot13"), Some(99)),
        Err(FcError::UnsupportedCompressionMethod)
    );
}

#[test]
fn gzip_levels() {
    assert_eq!(map_gzip_level(None), Ok(6));
    assert_eq!(map_gzip_level(Some(0)), Ok(0));
    assert_eq!(map_gzip_level(Some(9)), Ok(9));
    assert_eq!(map_gzip_level(Some(10)), Err(FcError::InvalidCompressionLevel));
}

#[test]
fn error_messages_name_the_failure() {
    assert_eq!(
        FcError::InvalidCompressionLevel.message(),
        "invalid compression level"
    );
    assert_eq!(
        FcError::UnsupportedCompressionMethod.message(),
        "unsupported compression method"
    );
}
