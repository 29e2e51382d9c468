//! Archive packing and unpacking engine.
//!
//! The crate walks nothing and writes nothing itself: callers hand it the
//! source folder as a list of entries (or a file's bytes) together with a
//! snapshot of the paths already occupied at the output location, and it
//! returns the resolved, conflict-free target path next to the encoded
//! archive bytes (or the decoded entries).  Output naming, conflict
//! resolution and compression-parameter mapping are verified; the zip, tar
//! and gzip containers themselves are produced and read through the `zip`,
//! `tar` and `flate2` crates behind trusted wrappers.

pub mod config;
pub mod entry;
pub mod error;
pub mod gzip_utils;
pub mod resolve;
pub mod tar_utils;
pub mod text;
pub mod zip_utils;
