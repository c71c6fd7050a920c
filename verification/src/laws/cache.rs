//! Laws of the cache: keys, entries, and sizes, as they are seen through its functions.

use crate::cache::entry::{join_entry, split_entry, FoundMeta, ImageEntry};
use crate::cache::fs::{self, FileSystemCache};
use crate::cache::key::{keys_are_distinct, ImageKey};
use crate::cache::rocks::{self, RocksCache};
use crate::cache::size::{lemma_low64_add, low64, sum, SizeScan};
use crate::config::{FsConfig, RocksConfig};
use crate::laws::text::lemma_hex_is_injective;
use crate::outside::buffers::content;
use crate::outside::clock::epoch_millis;
use crate::outside::sodium::sha256_digest;
use crate::utils::millis_of;
use bytes::Bytes;
use std::time::SystemTime;
use vstd::bytes::{
    lemma_auto_spec_u64_to_from_le_bytes, spec_u64_from_le_bytes, spec_u64_to_le_bytes,
};
use vstd::prelude::*;
use vstd::utf8::*;

verus! {

/// A key gives back what it was made of; its archive is `data-saver` for the data-saver version and
/// `data` for the full one.
pub proof fn keys_give_back_their_parts(
    chapter: String,
    image: String,
    saver: bool,
    key: ImageKey,
    c: &str,
    i: &str,
    archive: &'static str,
)
    requires
        call_ensures(ImageKey::new, (chapter, image, saver), key),
        call_ensures(ImageKey::chapter, (&key,), c),
        call_ensures(ImageKey::image, (&key,), i),
        call_ensures(ImageKey::archive_name, (&key,), archive),
    ensures
        c@ == chapter@,
        i@ == image@,
        saver ==> archive@ == "data-saver"@,
        !saver ==> archive@ == "data"@,
{
}

/// Keys of different images have different bytes in the database.
pub proof fn images_do_not_share_a_key(
    c1: String,
    i1: String,
    s1: bool,
    k1: ImageKey,
    b1: Vec<u8>,
    c2: String,
    i2: String,
    s2: bool,
    k2: ImageKey,
    b2: Vec<u8>,
)
    requires
        encode_utf8(c1@).len() <= u64::MAX,
        encode_utf8(c2@).len() <= u64::MAX,
        call_ensures(ImageKey::new, (c1, i1, s1), k1),
        call_ensures(ImageKey::new, (c2, i2, s2), k2),
        call_ensures(ImageKey::as_bkey, (&k1,), b1),
        call_ensures(ImageKey::as_bkey, (&k2,), b2),
    ensures
        (b1@ == b2@) == (c1@ == c2@ && i1@ == i2@ && s1 == s2),
{
    if b1@ == b2@ {
        keys_are_distinct(c1@, i1@, s1, c2@, i2@, s2);
    }
}

/// An entry that is made for an image holds the image, and its length, media type, time and checksum.
pub proof fn entries_describe_their_image(
    bytes: Bytes,
    mime: String,
    time: u64,
    entry: ImageEntry,
    len: u64,
    kind: &str,
)
    requires
        call_ensures(ImageEntry::saved_at, (bytes, mime, time), entry),
        call_ensures(ImageEntry::get_bytes_len, (&entry,), len),
        call_ensures(ImageEntry::get_mime, (&entry,), kind),
    ensures
        content(entry.bytes) == content(bytes),
        len == content(bytes).len(),
        entry.bytes_len == content(bytes).len(),
        kind@ == mime@,
        entry.save_time == time,
        entry.checksum@ == sha256_digest(content(bytes)),
{
}

/// An image that is saved now is described like any other, with the time that the clock shows.
pub proof fn new_entries_describe_their_image(bytes: Bytes, mime: String, entry: ImageEntry)
    requires
        call_ensures(ImageEntry::new_assume, (bytes, mime), entry),
    ensures
        content(entry.bytes) == content(bytes),
        entry.bytes_len == content(bytes).len(),
        entry.mime_type@ == mime@,
        entry.checksum@ == sha256_digest(content(bytes)),
        exists|reading: SystemTime|
            {
                &&& call_ensures(SystemTime::now, (), reading)
                &&& match #[trigger] epoch_millis(reading) {
                    Some(m) => m >= entry.save_time && (m - entry.save_time)
                        % 0x1_0000_0000_0000_0000 == 0,
                    None => entry.save_time == 0,
                }
            },
{
    let reading = choose|reading: SystemTime|
        {
            &&& call_ensures(SystemTime::now, (), reading)
            &&& entry.save_time == millis_of(#[trigger] epoch_millis(reading))
        };
    assert(call_ensures(SystemTime::now, (), reading));
    assert(match epoch_millis(reading) {
        Some(m) => m >= entry.save_time && (m - entry.save_time) % 0x1_0000_0000_0000_0000 == 0,
        None => entry.save_time == 0,
    });
}

/// Two images have the same checksum text exactly if they have the same digest.
pub proof fn checksum_texts_tell_digests_apart(
    b1: Bytes,
    m1: String,
    e1: ImageEntry,
    t1: String,
    b2: Bytes,
    m2: String,
    e2: ImageEntry,
    t2: String,
)
    requires
        call_ensures(ImageEntry::new_assume, (b1, m1), e1),
        call_ensures(ImageEntry::new_assume, (b2, m2), e2),
        call_ensures(ImageEntry::get_checksum_hex, (&e1,), t1),
        call_ensures(ImageEntry::get_checksum_hex, (&e2,), t2),
    ensures
        (t1@ == t2@) == (sha256_digest(content(b1)) == sha256_digest(content(b2))),
{
    if t1@ == t2@ {
        lemma_hex_is_injective(e1.checksum@, e2.checksum@);
    }
}

/// An entry that is split and joined again is the same; the metadata alone keeps the length of the
/// image, but not its bytes.
pub proof fn split_entries_are_joined_again(
    entry: ImageEntry,
    parts: (Bytes, ImageEntry),
    found: Result<Option<ImageEntry>, ()>,
    len: u64,
)
    requires
        call_ensures(split_entry, (entry,), parts),
        call_ensures(ImageEntry::get_bytes_len, (&parts.1,), len),
        call_ensures(join_entry, (Some(parts.0), FoundMeta::Found(parts.1)), found),
    ensures
        found == Ok::<Option<ImageEntry>, ()>(Some(entry)),
        content(parts.0) == content(entry.bytes),
        content(parts.1.bytes).len() == 0,
        parts.1.bytes_len == entry.bytes_len,
        len == entry.bytes_len,
        parts.1.save_time == entry.save_time,
        parts.1.checksum@ == entry.checksum@,
        parts.1.mime_type@ == entry.mime_type@,
{
}

/// A lookup finds an entry only if both parts were found, and fails only if there are bytes whose
/// metadata cannot be read.
pub proof fn half_entries_are_not_found(
    data: Option<Bytes>,
    meta: FoundMeta,
    r: Result<Option<ImageEntry>, ()>,
)
    requires
        call_ensures(join_entry, (data, meta), r),
    ensures
        r is Err == (data is Some && meta is Unreadable),
        (r matches Ok(found) && found is Some) == (data is Some && meta is Found),
{
}

/// Nothing counted makes zero, and each size that is counted raises the total by itself, up to the
/// limit of the counter.
pub proof fn sizes_are_added(
    empty: SizeScan,
    zero: u64,
    scan: SizeScan,
    total: u64,
    size: u64,
    next: SizeScan,
    raised: u64,
)
    requires
        call_ensures(SizeScan::new, (), empty),
        call_ensures(SizeScan::total, (&empty,), zero),
        call_ensures(SizeScan::total, (&scan,), total),
        call_ensures(SizeScan::count, (scan, size), next),
        call_ensures(SizeScan::total, (&next,), raised),
        total + size <= u64::MAX,
    ensures
        zero == 0,
        raised == total + size,
{
    lemma_count(scan, size, next);
}

/// What counting one more size does to the total.
proof fn lemma_count(scan: SizeScan, size: u64, next: SizeScan)
    requires
        next.sizes() == scan.sizes().push(size),
        low64(sum(scan.sizes())) + size <= u64::MAX,
    ensures
        low64(sum(next.sizes())) == low64(sum(scan.sizes())) + size,
{
    let total = low64(sum(scan.sizes()));
    assert(next.sizes().drop_last() =~= scan.sizes());
    lemma_low64_add(sum(scan.sizes()), size, (total + size) as u64);
}

/// A record of the metadata that can be read raises the size of the database by the length of its
/// image, whether or not it holds the bytes; one that cannot is handed back and does not count.
pub proof fn readable_records_count_in_rocks(
    scan: SizeScan,
    total: u64,
    key: Vec<u8>,
    found: Option<ImageEntry>,
    r: (SizeScan, Option<Vec<u8>>),
    raised: u64,
)
    requires
        call_ensures(rocks::scan_size, (scan, key, found), r),
        call_ensures(SizeScan::total, (&scan,), total),
        call_ensures(SizeScan::total, (&r.0,), raised),
        found matches Some(entry) ==> total + entry.bytes_len <= u64::MAX,
    ensures
        match found {
            Some(entry) => raised == total + entry.bytes_len && r.1 is None,
            None => raised == total && r.1 == Some(key),
        },
{
    if let Some(entry) = found {
        lemma_count(scan, entry.bytes_len, r.0);
    }
}

/// A record that can be read raises the size of the database by its own size; one that cannot does not
/// count.
pub proof fn readable_records_count_in_fs(
    scan: SizeScan,
    total: u64,
    found: Option<u64>,
    next: SizeScan,
    raised: u64,
)
    requires
        call_ensures(fs::scan_size, (scan, found), next),
        call_ensures(SizeScan::total, (&scan,), total),
        call_ensures(SizeScan::total, (&next,), raised),
        found matches Some(size) ==> total + size <= u64::MAX,
    ensures
        raised == total + (match found {
            Some(size) => size as int,
            None => 0,
        }),
{
    if let Some(size) = found {
        lemma_count(scan, size, next);
    }
}

/// The difference of two times, whichever is later.
proof fn lemma_age(now: u64, then: u64)
    ensures
        then <= now ==> low64(now - then) == now - then,
        then > now ==> low64(now - then) == now - then + 0x1_0000_0000_0000_0000,
{
    let m: int = 0x1_0000_0000_0000_0000;
    if then <= now {
        vstd::arithmetic::div_mod::lemma_small_mod((now - then) as nat, m as nat);
    } else {
        vstd::arithmetic::div_mod::lemma_mod_add_multiples_vanish(now - then, m);
        vstd::arithmetic::div_mod::lemma_small_mod((now - then + m) as nat, m as nat);
    }
}

/// The sum of a size and a length, whether or not it fits the counter.
proof fn lemma_fits(size: u64, len: u64)
    ensures
        size + len <= u64::MAX ==> low64(size + len) == size + len,
        size + len > u64::MAX ==> low64(size + len) == size + len - 0x1_0000_0000_0000_0000,
{
    let m: int = 0x1_0000_0000_0000_0000;
    if size + len < m {
        vstd::arithmetic::div_mod::lemma_small_mod((size + len) as nat, m as nat);
    } else {
        vstd::arithmetic::div_mod::lemma_mod_sub_multiples_vanish(size + len, m);
        vstd::arithmetic::div_mod::lemma_small_mod((size + len - m) as nat, m as nat);
    }
}

/// The size that a walk found is reported, until an hour has passed: then it has to be found anew.
/// Where that failed, nothing is reported. A clock that went back counts from two to the power of 64
/// down.
pub proof fn rocks_reports_what_a_walk_found(
    cache: &mut RocksCache,
    scan: SizeScan,
    total: u64,
    then: u64,
    reported: u64,
    failed: u64,
    now: u64,
    stale: bool,
)
    requires
        call_ensures(RocksCache::fetch_real_size, (cache, scan, then), ()),
        call_ensures(SizeScan::total, (&scan,), total),
        call_ensures(RocksCache::report, (&*final(cache), Ok(())), reported),
        call_ensures(RocksCache::report, (&*final(cache), Err(())), failed),
        call_ensures(RocksCache::is_stale, (&*final(cache), now), stale),
    ensures
        reported == total,
        failed == 0,
        then <= now ==> stale == (now - then > 60 * 60 * 1000),
        then > now ==> stale == (now - then + 0x1_0000_0000_0000_0000 > 60 * 60 * 1000),
{
    lemma_age(now, then);
}

/// An entry that is saved raises the reported size by the length of its image, in a counter of 64 bits,
/// and leaves open when the size has to be found anew.
pub proof fn rocks_counts_saved_entries(
    cache: &mut RocksCache,
    entry: &ImageEntry,
    before: u64,
    after: u64,
    now: u64,
    was_stale: bool,
    stale: bool,
)
    requires
        call_ensures(RocksCache::save_entry, (cache, entry), ()),
        call_ensures(RocksCache::report, (&*old(cache), Ok(())), before),
        call_ensures(RocksCache::report, (&*final(cache), Ok(())), after),
        call_ensures(RocksCache::is_stale, (&*old(cache), now), was_stale),
        call_ensures(RocksCache::is_stale, (&*final(cache), now), stale),
    ensures
        before + entry.bytes_len <= u64::MAX ==> after == before + entry.bytes_len,
        before + entry.bytes_len > u64::MAX ==> after == before + entry.bytes_len
            - 0x1_0000_0000_0000_0000,
        stale == was_stale,
{
    lemma_fits(before, entry.bytes_len);
}

/// The size that an eviction left is reported from there on.
pub proof fn rocks_reports_what_an_eviction_left(
    cache: &mut RocksCache,
    size: u64,
    after: u64,
    now: u64,
    was_stale: bool,
    stale: bool,
)
    requires
        call_ensures(RocksCache::evicted, (cache, size), ()),
        call_ensures(RocksCache::report, (&*final(cache), Ok(())), after),
        call_ensures(RocksCache::is_stale, (&*old(cache), now), was_stale),
        call_ensures(RocksCache::is_stale, (&*final(cache), now), stale),
    ensures
        after == size,
        stale == was_stale,
{
}

/// A new engine has nothing to report.
pub proof fn rocks_begins_empty(cache: RocksCache, reported: u64)
    requires
        call_ensures(RocksCache::new, (), cache),
        call_ensures(RocksCache::report, (&cache, Ok(())), reported),
    ensures
        reported == 0,
{
}

/// The file system engine reports what its first walk found, until an hour has passed.
pub proof fn fs_reports_what_a_walk_found(
    scan: SizeScan,
    total: u64,
    then: u64,
    cache: FileSystemCache,
    reported: u64,
    now: u64,
    stale: bool,
)
    requires
        call_ensures(FileSystemCache::new, (scan, then), cache),
        call_ensures(SizeScan::total, (&scan,), total),
        call_ensures(FileSystemCache::report, (&cache,), reported),
        call_ensures(FileSystemCache::is_stale, (&cache, now), stale),
    ensures
        reported == total,
        then <= now ==> stale == (now - then >= 60 * 60 * 1000),
        then > now ==> stale == (now - then + 0x1_0000_0000_0000_0000 >= 60 * 60 * 1000),
{
    lemma_age(now, then);
}

/// A later walk replaces the size. Only one that was made because the size was stale begins another
/// hour.
pub proof fn fs_takes_over_later_walks(
    cache: &mut FileSystemCache,
    scan: SizeScan,
    total: u64,
    refreshed_at: Option<u64>,
    size: u64,
    reported: u64,
    now: u64,
    was_stale: bool,
    stale: bool,
)
    requires
        call_ensures(FileSystemCache::update_real_size, (cache, scan, refreshed_at), size),
        call_ensures(SizeScan::total, (&scan,), total),
        call_ensures(FileSystemCache::report, (&*final(cache),), reported),
        call_ensures(FileSystemCache::is_stale, (&*old(cache), now), was_stale),
        call_ensures(FileSystemCache::is_stale, (&*final(cache), now), stale),
        refreshed_at matches Some(then) ==> then <= now,
    ensures
        size == total,
        reported == total,
        match refreshed_at {
            Some(then) => stale == (now - then >= 60 * 60 * 1000),
            None => stale == was_stale,
        },
{
    if let Some(then) = refreshed_at {
        lemma_age(now, then);
    }
}

/// An entry that was written raises the reported size by the bytes that were written, in a counter of
/// 64 bits.
pub proof fn fs_counts_saved_entries(
    cache: &mut FileSystemCache,
    len: usize,
    before: u64,
    after: u64,
    now: u64,
    was_stale: bool,
    stale: bool,
)
    requires
        call_ensures(FileSystemCache::save_to_db, (cache, len), ()),
        call_ensures(FileSystemCache::report, (&*old(cache),), before),
        call_ensures(FileSystemCache::report, (&*final(cache),), after),
        call_ensures(FileSystemCache::is_stale, (&*old(cache), now), was_stale),
        call_ensures(FileSystemCache::is_stale, (&*final(cache), now), stale),
        len <= u64::MAX,
    ensures
        before + len <= u64::MAX ==> after == before + len,
        before + len > u64::MAX ==> after == before + len - 0x1_0000_0000_0000_0000,
        stale == was_stale,
{
    lemma_fits(before, len as u64);
}

/// Sizes in the configuration of the file system engine are in mebibytes and kibibytes.
pub proof fn fs_options_are_in_bytes(conf: &FsConfig, opts: fs::FsOptions)
    requires
        call_ensures(fs::fs_opts, (conf,), opts),
    ensures
        opts.memory_lru_max_size == 1048576 * conf.lru_size_mebibytes,
        opts.read_write_buffer == 1024 * conf.rw_buffer_size,
{
}

/// Sizes in the configuration of the RocksDB engine are in mebibytes, and 64 of them where none is
/// given. A block cache of size zero is none; there is no limit of writes where none is given.
pub proof fn rocks_options_are_in_bytes(
    conf: &RocksConfig,
    block: rocks::BlockOptions,
    db: rocks::DbOptions,
)
    requires
        call_ensures(rocks::block_cf_opts, (conf,), block),
        call_ensures(rocks::db_opts, (conf,), db),
        conf.lru_size matches Some(size) ==> size * 1048576 <= usize::MAX,
        conf.write_rate_limit matches Some(limit) ==> limit * 1048576 <= i64::MAX && limit * 1048576
            <= usize::MAX,
    ensures
        block.format_version == 5,
        block.bloom_bits is Some == !conf.disable_bloom_filter,
        block.bloom_bits matches Some(bits) ==> bits == 10,
        conf.lru_size matches Some(size) ==> block.lru_bytes is Some == (size > 0),
        conf.lru_size matches Some(size) ==> (block.lru_bytes matches Some(bytes) ==> bytes
            == 1048576 * size),
        conf.lru_size is None ==> block.lru_bytes == Some(67108864usize),
        db.keep_log_files == 30,
        db.background_jobs == 6,
        db.compaction_readahead_bytes == 8388608,
        db.level_compaction_bytes == 536870912,
        conf.parallelism matches Some(n) ==> db.parallelism == n,
        conf.parallelism is None ==> db.parallelism == 2,
        conf.write_buffer_size matches Some(size) ==> db.write_buffer_bytes == 1048576 * size,
        conf.write_buffer_size is None ==> db.write_buffer_bytes == 67108864,
        db.bytes_per_second is Some == conf.write_rate_limit is Some,
        conf.write_rate_limit matches Some(limit) ==> (db.bytes_per_second matches Some(bytes)
            ==> bytes == 1048576 * limit),
{
}

/// The bytes of a key: a flag for the data-saver version, the length of the chapter in eight bytes, the
/// lowest first, the chapter, and the image.
pub proof fn keys_are_laid_out(
    chapter: String,
    image: String,
    saver: bool,
    key: ImageKey,
    bytes: Vec<u8>,
    from: int,
)
    requires
        encode_utf8(chapter@).len() <= u64::MAX,
        call_ensures(ImageKey::new, (chapter, image, saver), key),
        call_ensures(ImageKey::as_bkey, (&key,), bytes),
        from == 9 + encode_utf8(chapter@).len(),
    ensures
        bytes@.len() == from + encode_utf8(image@).len(),
        bytes@[0] == if saver {
            1u8
        } else {
            0u8
        },
        spec_u64_from_le_bytes(bytes@.subrange(1, 9)) == encode_utf8(chapter@).len(),
        bytes@.subrange(9, from) == encode_utf8(chapter@),
        bytes@.skip(from) == encode_utf8(image@),
{
    let len = spec_u64_to_le_bytes(encode_utf8(chapter@).len() as u64);
    lemma_auto_spec_u64_to_from_le_bytes();
    assert(bytes@.subrange(1, 9) =~= len);
    assert(bytes@.subrange(9, from) =~= encode_utf8(chapter@));
    assert(bytes@.skip(from) =~= encode_utf8(image@));
}

/// An error of the cache tells which part failed, and the cause.
pub proof fn cache_errors_tell_their_cause(base: String, text: String, other: String)
    requires
        call_ensures(fs::CacheError::to_text, (&fs::CacheError::Forceps(base),), text),
        call_ensures(fs::CacheError::to_text, (&fs::CacheError::Bincode(base),), other),
    ensures
        text@ == "ce-filesystem/forceps - \""@ + base@ + "\""@,
        other@ == "ce-filesystem/bincode - \""@ + base@ + "\""@,
{
}

} // verus!
