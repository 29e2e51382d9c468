//! The gzip single-file codec: compress or decompress exactly one file's
//! bytes, with output naming and conflict resolution.

use vstd::prelude::*;

use crate::config::{map_gzip_level, spec_gzip_level, spec_opt_str_view};
use crate::entry::{PackedArchive, UnpackedFile};
use crate::error::FcError;
use crate::resolve::{
    base_name, out_dir, resolve_free_target, spec_base_name, spec_ext, spec_is_resolved,
    spec_out_dir, spec_stem, spec_stem_name, split_extension, stem_name,
};

verus! {

/// The gzip container that `flate2` produces for `data` at `level`.  With a
/// fixed encoder version this depends on the bytes and the level alone: the
/// header `flate2` writes carries a zero timestamp and a fixed
/// operating-system byte.
pub uninterp spec fn gzip_bytes_of(data: Seq<u8>, level: u32) -> Seq<u8>;

/// Relies on `flate2::write::GzEncoder`: compressing `data` at `level`
/// (0 to 9) yields the gzip container for it.  The encoder writes into a
/// `Vec` and cannot fail for these levels, and the format is lossless:
/// decompressing the container returns the payload.
#[verifier::external_body]
fn gzip_encode(data: &Vec<u8>, level: u32) -> (r: Result<Vec<u8>, ()>)
    requires
        level <= 9,
    ensures
        r is Ok,
        r is Ok ==> r.unwrap()@ == gzip_bytes_of(data@, level),
        r is Ok ==> gunzip_bytes_of(r.unwrap()@) == Some(data@),
{
    let mut enc = flate2::write::GzEncoder::new(Vec::new(), flate2::Compression::new(level));
    if std::io::Write::write_all(&mut enc, data.as_slice()).is_err() {
        return Err(());
    }
    enc.finish().map_err(|_| ())
}

/// What decompressing a gzip container yields: the payload, or nothing
/// when the bytes are not a well-formed container.
pub uninterp spec fn gunzip_bytes_of(bytes: Seq<u8>) -> Option<Seq<u8>>;

/// Relies on `flate2::read::GzDecoder`: decompressing succeeds with the
/// container's payload exactly when the bytes form a gzip container.
#[verifier::external_body]
fn gunzip_decode(bytes: &Vec<u8>) -> (r: Result<Vec<u8>, ()>)
    ensures
        match gunzip_bytes_of(bytes@) {
            Some(d) => r is Ok && r.unwrap()@ == d,
            None => r is Err,
        },
{
    let mut dec = flate2::read::GzDecoder::new(bytes.as_slice());
    let mut out = Vec::new();
    match std::io::Read::read_to_end(&mut dec, &mut out) {
        Ok(_) => Ok(out),
        Err(_) => Err(()),
    }
}

/// Compress one file's bytes into a gzip container.
///
/// `input_path` is where the caller found the file and `source_is_file`
/// whether it is a regular file; `data` is its contents; `existing` is the
/// snapshot of occupied paths at the output location.  The output name is
/// the explicit name or the file's own name, with `.gz` appended and the
/// conflict counter spliced in before it.
pub fn gzip_file(
    input_path: &str,
    source_is_file: bool,
    data: &Vec<u8>,
    output_file_name: Option<&str>,
    compression_level: Option<u32>,
    output_dir: Option<&str>,
    existing: &Vec<String>,
) -> (r: Result<PackedArchive, FcError>)
    ensures
        match r {
            Ok(p) => {
                &&& source_is_file
                &&& spec_base_name(input_path@, spec_opt_str_view(output_file_name)) is Some
                &&& spec_gzip_level(compression_level) is Ok
                &&& spec_is_resolved(
                    spec_out_dir(input_path@, spec_opt_str_view(output_dir)),
                    spec_base_name(input_path@, spec_opt_str_view(output_file_name)).unwrap(),
                    ".gz"@,
                    existing@,
                    p.target,
                )
                &&& p.bytes@ == gzip_bytes_of(
                    data@,
                    spec_gzip_level(compression_level).unwrap(),
                )
                &&& gunzip_bytes_of(p.bytes@) == Some(data@)
            },
            Err(e) => match e {
                FcError::NotAFile => !source_is_file,
                FcError::InvalidPath => source_is_file && spec_base_name(
                    input_path@,
                    spec_opt_str_view(output_file_name),
                ) is None,
                FcError::InvalidCompressionLevel => {
                    &&& source_is_file
                    &&& spec_base_name(input_path@, spec_opt_str_view(output_file_name)) is Some
                    &&& spec_gzip_level(compression_level) is Err
                },
                _ => false,
            },
        },
{
    if !source_is_file {
        return Err(FcError::NotAFile);
    }
    let name = match base_name(input_path, output_file_name) {
        Some(n) => n,
        None => {
            return Err(FcError::InvalidPath);
        },
    };
    let level = match map_gzip_level(compression_level) {
        Ok(l) => l,
        Err(e) => {
            return Err(e);
        },
    };
    let dir = out_dir(input_path, output_dir);
    let target = resolve_free_target(dir.as_str(), name.as_str(), ".gz", existing);
    let bytes = gzip_encode(data, level).unwrap();
    Ok(PackedArchive { target, bytes })
}

/// Decompress one gzip container.
///
/// The output name is the explicit name or the archive's stem (its name
/// with the trailing extension dropped), with the conflict counter spliced
/// in before that name's own extension.
pub fn gunzip_file(
    gz_path: &str,
    source_is_file: bool,
    bytes: &Vec<u8>,
    output_file_name: Option<&str>,
    output_dir: Option<&str>,
    existing: &Vec<String>,
) -> (r: Result<UnpackedFile, FcError>)
    ensures
        match r {
            Ok(u) => {
                &&& source_is_file
                &&& spec_stem_name(gz_path@, spec_opt_str_view(output_file_name)) is Some
                &&& spec_is_resolved(
                    spec_out_dir(gz_path@, spec_opt_str_view(output_dir)),
                    spec_stem(spec_stem_name(gz_path@, spec_opt_str_view(output_file_name)).unwrap()),
                    spec_ext(spec_stem_name(gz_path@, spec_opt_str_view(output_file_name)).unwrap()),
                    existing@,
                    u.target,
                )
                &&& gunzip_bytes_of(bytes@) == Some(u.data@)
            },
            Err(e) => match e {
                FcError::NotAFile => !source_is_file,
                FcError::InvalidPath => source_is_file && spec_stem_name(
                    gz_path@,
                    spec_opt_str_view(output_file_name),
                ) is None,
                FcError::IoError => {
                    &&& source_is_file
                    &&& spec_stem_name(gz_path@, spec_opt_str_view(output_file_name)) is Some
                    &&& gunzip_bytes_of(bytes@) is None
                },
                _ => false,
            },
        },
{
    if !source_is_file {
        return Err(FcError::NotAFile);
    }
    let name = match stem_name(gz_path, output_file_name) {
        Some(n) => n,
        None => {
            return Err(FcError::InvalidPath);
        },
    };
    let dir = out_dir(gz_path, output_dir);
    let (stem, ext) = split_extension(name.as_str());
    let target = resolve_free_target(dir.as_str(), stem.as_str(), ext.as_str(), existing);
    match gunzip_decode(bytes) {
        Ok(data) => Ok(UnpackedFile { target, data }),
        Err(_) => Err(FcError::IoError),
    }
}

} // verus!
