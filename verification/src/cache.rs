//! Cache configuration for Subversion operations
//!
//! Subversion keeps one process-wide cache configuration; this module holds
//! its settings as plain values and converts them to and from the form in
//! which Subversion stores them.

use vstd::prelude::*;

verus! {

/// Cache configuration settings
///
/// This corresponds to SVN's `svn_cache_config_t` structure.
#[derive(Debug, Clone, Copy, PartialEq, Eq, Structural)]
pub struct CacheConfig {
    /// Total cache size in bytes. This is a soft limit.
    /// May be 0, resulting in default caching code being used.
    pub cache_size: u64,
    /// Maximum number of files kept open
    pub file_handle_count: usize,
    /// Is this application guaranteed to be single-threaded?
    pub single_threaded: bool,
}

/// The cache settings in the form in which Subversion stores them: the
/// single-threaded flag is a number, non-zero for true.
#[derive(Debug, Clone, Copy, PartialEq, Eq, Structural)]
pub struct RawCacheConfig {
    /// Total cache size in bytes.
    pub cache_size: u64,
    /// Maximum number of files kept open.
    pub file_handle_count: usize,
    /// Non-zero when the application is single-threaded.
    pub single_threaded: i32,
}

impl CacheConfig {
    /// The settings that Subversion's stored form stands for; with no
    /// stored settings, all are zero or off.
    pub open spec fn spec_from_raw(raw: Option<RawCacheConfig>) -> CacheConfig {
        match raw {
            None => CacheConfig { cache_size: 0, file_handle_count: 0, single_threaded: false },
            Some(c) => CacheConfig {
                cache_size: c.cache_size,
                file_handle_count: c.file_handle_count,
                single_threaded: c.single_threaded != 0,
            },
        }
    }

    /// These settings in the form in which Subversion stores them; the
    /// single-threaded flag becomes 1 or 0.
    pub open spec fn spec_to_raw(self) -> RawCacheConfig {
        RawCacheConfig {
            cache_size: self.cache_size,
            file_handle_count: self.file_handle_count,
            single_threaded: if self.single_threaded { 1i32 } else { 0i32 },
        }
    }

    /// The settings that Subversion's stored form stands for; with no
    /// stored settings (`None`), all are zero or off.
    pub fn from_raw(raw: Option<RawCacheConfig>) -> (r: CacheConfig)
        ensures
            r == Self::spec_from_raw(raw),
            raw is None ==> r.cache_size == 0 && r.file_handle_count == 0 && !r.single_threaded,
            raw matches Some(c) ==> r.cache_size == c.cache_size && r.file_handle_count
                == c.file_handle_count && (r.single_threaded <==> c.single_threaded != 0),
    {
        match raw {
            None => CacheConfig { cache_size: 0, file_handle_count: 0, single_threaded: false },
            Some(c) => CacheConfig {
                cache_size: c.cache_size,
                file_handle_count: c.file_handle_count,
                single_threaded: c.single_threaded != 0,
            },
        }
    }

    /// These settings in the form in which Subversion stores them.
    pub fn to_raw(&self) -> (r: RawCacheConfig)
        ensures
            r == self.spec_to_raw(),
            r.cache_size == self.cache_size,
            r.file_handle_count == self.file_handle_count,
            self.single_threaded ==> r.single_threaded == 1,
            !self.single_threaded ==> r.single_threaded == 0,
    {
        RawCacheConfig {
            cache_size: self.cache_size,
            file_handle_count: self.file_handle_count,
            single_threaded: if self.single_threaded { 1 } else { 0 },
        }
    }
}

/// What is read back is what was set: converting settings to Subversion's
/// stored form and back gives the same settings.
pub proof fn lemma_cache_config_roundtrip(config: CacheConfig)
    ensures
        CacheConfig::spec_from_raw(Some(config.spec_to_raw())) == config,
{
}

/// Stored settings whose flag is 0 or 1 are kept as they are when they are
/// read and stored again.
pub proof fn lemma_raw_cache_config_roundtrip(raw: RawCacheConfig)
    requires
        raw.single_threaded == 0 || raw.single_threaded == 1,
    ensures
        CacheConfig::spec_from_raw(Some(raw)).spec_to_raw() == raw,
{
}

} // verus!
