//! The error kinds that the archive engine reports.

use vstd::prelude::*;

verus! {

/// Everything that can go wrong while packing or unpacking an archive.
///
/// Precondition failures (`InvalidPath`, `NotADirectory`, `NotAFile`,
/// `UnsupportedCompressionMethod`, `InvalidCompressionLevel`) are reported
/// before any archive bytes are produced; the codec failures
/// (`ArchiveReadError`, `ArchiveWriteError`, `IoError`) come from the
/// container codecs themselves.
#[derive(Clone, Copy, Debug, PartialEq, Eq, Structural)]
pub enum FcError {
    InvalidPath,
    NotADirectory,
    NotAFile,
    UnsupportedCompressionMethod,
    InvalidCompressionLevel,
    ArchiveReadError,
    ArchiveWriteError,
    IoError,
}

/// The one-line description of an error kind.
pub open spec fn spec_message(e: FcError) -> Seq<char> {
    match e {
        FcError::InvalidPath => "path has no usable file name component"@,
        FcError::NotADirectory => "provided path is not a directory, or does not exist"@,
        FcError::NotAFile => "provided path is not a file, or does not exist"@,
        FcError::UnsupportedCompressionMethod => "unsupported compression method"@,
        FcError::InvalidCompressionLevel => "invalid compression level"@,
        FcError::ArchiveReadError => "failed to read the archive"@,
        FcError::ArchiveWriteError => "failed to write the archive"@,
        FcError::IoError => "i/o failure while copying data"@,
    }
}

impl FcError {
    /// A short human-readable description, for callers that report failures.
    pub fn message(&self) -> (m: &'static str)
        ensures
            m@ == spec_message(*self),
    {
        match self {
            FcError::InvalidPath => "path has no usable file name component",
            FcError::NotADirectory => "provided path is not a directory, or does not exist",
            FcError::NotAFile => "provided path is not a file, or does not exist",
            FcError::UnsupportedCompressionMethod => "unsupported compression method",
            FcError::InvalidCompressionLevel => "invalid compression level",
            FcError::ArchiveReadError => "failed to read the archive",
            FcError::ArchiveWriteError => "failed to write the archive",
            FcError::IoError => "i/o failure while copying data",
        }
    }
}

} // verus!
