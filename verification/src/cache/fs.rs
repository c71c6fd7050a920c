//! Bookkeeping of the file system cache engine: the size of the database.

use crate::cache::size::{lemma_low64_add, lemma_low64_sub, low64, sum, SizeScan};
use crate::config::FsConfig;
use vstd::prelude::*;
use vstd::string::*;

verus! {

/// What can go wrong in the engine: in the database, or in the encoding of entries. Each comes with
/// the text of its cause.
pub enum CacheError {
    Forceps(String),
    Bincode(String),
}

impl CacheError {
    /// The text of the error.
    pub open spec fn display(self) -> Seq<char> {
        match self {
            CacheError::Forceps(base) => "ce-filesystem/forceps - \""@ + base@ + "\""@,
            CacheError::Bincode(base) => "ce-filesystem/bincode - \""@ + base@ + "\""@,
        }
    }

    /// The text of the error.
    pub fn to_text(&self) -> (text: String)
        ensures
            text@ == self.display(),
    {
        let (start, base): (&'static str, &String) = match self {
            CacheError::Forceps(base) => ("ce-filesystem/forceps - \"", base),
            CacheError::Bincode(base) => ("ce-filesystem/bincode - \"", base),
        };
        let mut text: String = start.to_string();
        text.append(base.as_str());
        text.append("\"");
        text
    }
}

/// Milliseconds after which the size of the database is found anew.
pub const MIN_TIME: u64 = 3_600_000;

/// Takes one record of a walk through the metadata into the size of the database. What cannot be
/// read does not count.
pub fn scan_size(scan: SizeScan, found: Option<u64>) -> (r: SizeScan)
    ensures
        match found {
            Some(size) => r.sizes() == scan.sizes().push(size),
            None => r == scan,
        },
{
    match found {
        Some(size) => scan.count(size),
        None => scan,
    }
}

/// The size of the database as it is known, and when it was last found by a walk through the
/// metadata. Times are milliseconds since the epoch.
pub struct FileSystemCache {
    last_fetch: u64,
    total: u64,
}

impl FileSystemCache {
    /// The size as it is known.
    pub closed spec fn total(self) -> u64 {
        self.total
    }

    /// When the size was last found.
    pub closed spec fn last_fetch(self) -> u64 {
        self.last_fetch
    }

    /// The size that a first walk through the metadata found.
    pub fn new(scan: SizeScan, now: u64) -> (cache: Self)
        ensures
            cache.total() == low64(sum(scan.sizes())),
            cache.last_fetch() == now,
    {
        FileSystemCache { last_fetch: now, total: scan.total() }
    }

    /// Whether the size has to be found anew: the last walk was an hour ago.
    pub fn is_stale(&self, now: u64) -> (stale: bool)
        ensures
            stale == (low64(now - self.last_fetch()) >= 3_600_000),
    {
        let age: u64 = now.wrapping_sub(self.last_fetch);
        proof {
            vstd::arithmetic::div_mod::lemma_small_mod(now as nat, 0x1_0000_0000_0000_0000nat);
            lemma_low64_sub(now as int, self.last_fetch, age);
        }
        age >= MIN_TIME
    }

    /// Takes over the size that a walk through the metadata found, and gives it back. Only a walk
    /// that was made because the size was stale, at the time given, resets its age.
    pub fn update_real_size(&mut self, scan: SizeScan, refreshed_at: Option<u64>) -> (size: u64)
        ensures
            size == low64(sum(scan.sizes())),
            final(self).total() == size,
            final(self).last_fetch() == (match refreshed_at {
                Some(now) => now,
                None => old(self).last_fetch(),
            }),
    {
        self.total = scan.total();
        match refreshed_at {
            Some(now) => {
                self.last_fetch = now;
            },
            None => {},
        }
        self.total
    }

    /// Counts an entry that was written, by the number of bytes that it was serialized to.
    pub fn save_to_db(&mut self, serialized_len: usize)
        ensures
            final(self).total() == low64(old(self).total() + serialized_len as u64),
            final(self).last_fetch() == old(self).last_fetch(),
    {
        let ghost before = self.total;
        self.total = self.total.wrapping_add(serialized_len as u64);
        proof {
            vstd::arithmetic::div_mod::lemma_small_mod(before as nat, 0x1_0000_0000_0000_0000nat);
            lemma_low64_add(before as int, serialized_len as u64, self.total);
        }
    }

    /// The size that is reported.
    pub fn report(&self) -> (size: u64)
        ensures
            size == self.total(),
    {
        self.total
    }
}

/// Sizes in bytes that the database is opened with.
pub struct FsOptions {
    pub memory_lru_max_size: usize,
    pub read_write_buffer: usize,
}

/// The sizes that the configuration asks for.
pub fn fs_opts(conf: &FsConfig) -> (opts: FsOptions)
    requires
        conf.lru_size_mebibytes * 1024 * 1024 <= usize::MAX,
        conf.rw_buffer_size * 1024 <= usize::MAX,
    ensures
        opts.memory_lru_max_size == conf.lru_size_mebibytes * 1024 * 1024,
        opts.read_write_buffer == conf.rw_buffer_size * 1024,
{
    FsOptions {
        memory_lru_max_size: conf.lru_size_mebibytes * 1024 * 1024,
        read_write_buffer: conf.rw_buffer_size * 1024,
    }
}

} // verus!
