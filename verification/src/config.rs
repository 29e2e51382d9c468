//! The compression config mapper: a user-chosen method token and numeric
//! level become a validated, codec-specific configuration.

use vstd::prelude::*;

use crate::error::FcError;
use crate::text::str_equal;

verus! {

/// The compression methods the zip packer supports.
#[derive(Clone, Copy, Debug, PartialEq, Eq, Structural)]
pub enum CompressionMethod {
    Deflate,
    Bzip2,
    Zstd,
}

/// A validated method and level pair; `level` always lies in the method's
/// legal range after mapping defaults.
#[derive(Clone, Copy, Debug, PartialEq, Eq, Structural)]
pub struct CompressionConfig {
    pub method: CompressionMethod,
    pub level: i64,
}

/// The legal explicit levels of each method.
pub open spec fn spec_level_in_range(m: CompressionMethod, level: int) -> bool {
    match m {
        CompressionMethod::Zstd => -7 <= level <= 22,
        _ => 0 <= level <= 9,
    }
}

/// The level used when the caller names none.
pub open spec fn spec_default_level(m: CompressionMethod) -> int {
    match m {
        CompressionMethod::Zstd => 3,
        _ => 6,
    }
}

/// The view of an optional token.
pub open spec fn spec_opt_str_view(t: Option<&str>) -> Option<Seq<char>> {
    match t {
        None => None,
        Some(s) => Some(s@),
    }
}

/// The exact, case-sensitive token mapping; `None` means an unsupported
/// token.
pub open spec fn spec_method_of(token: Option<Seq<char>>) -> Option<CompressionMethod> {
    match token {
        None => Some(CompressionMethod::Deflate),
        Some(t) => if t == "bzip2"@ || t == "bzip"@ {
            Some(CompressionMethod::Bzip2)
        } else if t == "deflate"@ || t == "default"@ {
            Some(CompressionMethod::Deflate)
        } else if t == "zstd"@ || t == "z"@ {
            Some(CompressionMethod::Zstd)
        } else {
            None
        },
    }
}

/// The level the packer actually uses: the default when none was given, and
/// the default Zstd level for the literal Zstd level `0`, which means "use
/// the format default" rather than an explicit zero.
pub open spec fn spec_effective_level(m: CompressionMethod, level: Option<i64>) -> int {
    match level {
        None => spec_default_level(m),
        Some(l) => if m is Zstd && l == 0 {
            spec_default_level(CompressionMethod::Zstd)
        } else {
            l as int
        },
    }
}

/// What `build_config` returns, in full.
pub open spec fn spec_build_config(token: Option<Seq<char>>, level: Option<i64>) -> Result<
    CompressionConfig,
    FcError,
> {
    match spec_method_of(token) {
        None => Err(FcError::UnsupportedCompressionMethod),
        Some(m) => if level is Some && !spec_level_in_range(m, level.unwrap() as int) {
            Err(FcError::InvalidCompressionLevel)
        } else {
            Ok(
                CompressionConfig {
                    method: m,
                    level: spec_effective_level(m, level) as i64,
                },
            )
        },
    }
}

/// Map a method token to a compression method.
pub fn map_method(token: Option<&str>) -> (r: Result<CompressionMethod, FcError>)
    ensures
        r == match spec_method_of(spec_opt_str_view(token)) {
            Some(m) => Result::<CompressionMethod, FcError>::Ok(m),
            None => Result::<CompressionMethod, FcError>::Err(
                FcError::UnsupportedCompressionMethod,
            ),
        },
{
    match token {
        None => Ok(CompressionMethod::Deflate),
        Some(t) => {
            if str_equal(t, "bzip2") || str_equal(t, "bzip") {
                Ok(CompressionMethod::Bzip2)
            } else if str_equal(t, "deflate") || str_equal(t, "default") {
                Ok(CompressionMethod::Deflate)
            } else if str_equal(t, "zstd") || str_equal(t, "z") {
                Ok(CompressionMethod::Zstd)
            } else {
                Err(FcError::UnsupportedCompressionMethod)
            }
        },
    }
}

/// Validate a method token and an optional level into a configuration.
pub fn build_config(token: Option<&str>, level: Option<i64>) -> (r: Result<
    CompressionConfig,
    FcError,
>)
    ensures
        r == spec_build_config(spec_opt_str_view(token), level),
{
    let method = match map_method(token) {
        Ok(m) => m,
        Err(e) => {
            return Err(e);
        },
    };
    let effective: i64 = match level {
        None => match method {
            CompressionMethod::Zstd => 3,
            _ => 6,
        },
        Some(l) => {
            let in_range = match method {
                CompressionMethod::Zstd => -7 <= l && l <= 22,
                _ => 0 <= l && l <= 9,
            };
            if !in_range {
                return Err(FcError::InvalidCompressionLevel);
            }
            if matches!(method, CompressionMethod::Zstd) && l == 0 {
                3
            } else {
                l
            }
        },
    };
    Ok(CompressionConfig { method, level: effective })
}

/// The gzip codec draws its levels from the Deflate range: `0` to `9`,
/// default `6`.
pub open spec fn spec_gzip_level(level: Option<u32>) -> Result<u32, FcError> {
    match level {
        None => Ok(6u32),
        Some(l) => if l <= 9 {
            Ok(l)
        } else {
            Err(FcError::InvalidCompressionLevel)
        },
    }
}

/// Validate an optional gzip level.
pub fn map_gzip_level(level: Option<u32>) -> (r: Result<u32, FcError>)
    ensures
        r == spec_gzip_level(level),
{
    match level {
        None => Ok(6),
        Some(l) => if l <= 9 {
            Ok(l)
        } else {
            Err(FcError::InvalidCompressionLevel)
        },
    }
}

/// A built configuration always carries a level inside its method's legal
/// range: explicit levels are validated, the defaults lie in range, and
/// the Zstd zero maps to the in-range default.
pub proof fn lemma_config_level_in_range(token: Option<Seq<char>>, level: Option<i64>)
    ensures
        spec_build_config(token, level) is Ok ==> spec_level_in_range(
            spec_build_config(token, level).unwrap().method,
            spec_build_config(token, level).unwrap().level as int,
        ),
{
}

/// An explicit Zstd level of `0` yields exactly the configuration that an
/// absent level yields: both mean the default Zstd level.
pub proof fn lemma_zstd_zero_level_is_default(token: Option<Seq<char>>)
    requires
        spec_method_of(token) == Some(CompressionMethod::Zstd),
    ensures
        spec_build_config(token, Some(0i64)) == spec_build_config(token, None),
{
}

} // verus!
