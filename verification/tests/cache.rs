use bytes::Bytes;
use scalpel::cache::entry::{join_entry, split_entry, FoundMeta, ImageEntry};
use scalpel::cache::fs;
use scalpel::cache::key::ImageKey;
use scalpel::cache::rocks;
use scalpel::cache::rocks::{
    EntryOrder, EvictStep, Evictor, OldestFirst, RocksCache, TopEntries,
};
use scalpel::cache::size::SizeScan;
use scalpel::config::{FsConfig, RocksConfig};

const MIB: usize = 1024 * 1024;

fn image(size: usize, saved: u64) -> ImageEntry {
    ImageEntry::saved_at(Bytes::from(vec![7u8; size]), "image/png".to_string(), saved)
}

#[test]
fn keys_encode_all_parts() {
    let key = ImageKey::new("ab".to_string(), "1.png".to_string(), true);
    assert_eq!(key.archive_name(), "data-saver");
    assert_eq!(key.chapter(), "ab");
    assert_eq!(key.image(), "1.png");
    assert_eq!(key.as_bkey(), b"\x01\x02\0\0\0\0\0\0\0ab1.png".to_vec());
    let key = ImageKey::new("\u{fc}".to_string(), String::new(), false);
    assert_eq!(key.archive_name(), "data");
    assert_eq!(key.as_bkey(), b"\x00\x02\0\0\0\0\0\0\0\xc3\xbc".to_vec());
}

#[test]
fn distinct_images_have_distinct_keys() {
    let key = |c: &str, i: &str, s| ImageKey::new(c.to_string(), i.to_string(), s).as_bkey();
    assert_ne!(key("ab", "c", false), key("a", "bc", false));
    assert_ne!(key("ab", "c", false), key("ab", "c", true));
    assert_ne!(key("ab", "c", false), key("abc", "", false));
}

#[test]
fn entries_know_their_content() {
    let entry = ImageEntry::saved_at(Bytes::from("abc"), "image/png".to_string(), 17);
    assert_eq!(entry.get_bytes_len(), 3);
    assert_eq!(entry.get_mime(), "image/png");
    assert_eq!(entry.save_time, 17);
    assert_eq!(
        entry.get_checksum_hex(),
        "ba7816bf8f01cfea414140de5dae2223b00361a396177a9cb410ff61f20015ad"
    );
}

#[test]
fn new_entries_are_saved_now() {
    let before = scalpel::utils::now_as_millis();
    let entry = ImageEntry::new_assume(Bytes::new(), "image/gif".to_string());
    let after = scalpel::utils::now_as_millis();
    assert!(before <= entry.save_time && entry.save_time <= after);
    assert_eq!(
        entry.get_checksum_hex(),
        "e3b0c44298fc1c149afbf4c8996fb92427ae41e4649b934ca495991b7852b855"
    );
}

#[test]
fn same_content_gives_same_checksum() {
    let a = ImageEntry::saved_at(Bytes::from("xyz"), "image/png".to_string(), 1);
    let b = ImageEntry::saved_at(Bytes::from("xyz"), "image/gif".to_string(), 2);
    let c = ImageEntry::saved_at(Bytes::from("xyZ"), "image/gif".to_string(), 2);
    assert_eq!(a.get_checksum_hex(), b.get_checksum_hex());
    assert_ne!(a.get_checksum_hex(), c.get_checksum_hex());
}

#[test]
fn a_lookup_gives_back_what_was_saved() {
    let entry = ImageEntry::saved_at(Bytes::from("abc"), "image/png".to_string(), 17);
    let checksum = entry.checksum.clone();
    let (data, meta) = split_entry(entry);
    assert_eq!(&data[..], b"abc");
    assert!(meta.bytes.is_empty());
    assert_eq!(meta.bytes_len, 3);
    let found = join_entry(Some(data), FoundMeta::Found(meta)).unwrap().unwrap();
    assert_eq!(&found.bytes[..], b"abc");
    assert_eq!(found.bytes_len, 3);
    assert_eq!(found.mime_type, "image/png");
    assert_eq!(found.save_time, 17);
    assert_eq!(found.checksum, checksum);
}

#[test]
fn half_an_entry_is_no_entry() {
    let bytes = || Some(Bytes::from("abc"));
    assert!(matches!(join_entry(None, FoundMeta::Missing), Ok(None)));
    assert!(matches!(join_entry(None, FoundMeta::Unreadable), Ok(None)));
    assert!(matches!(join_entry(None, FoundMeta::Found(image(3, 1))), Ok(None)));
    assert!(matches!(join_entry(bytes(), FoundMeta::Missing), Ok(None)));
    assert!(matches!(join_entry(bytes(), FoundMeta::Unreadable), Err(())));
}

#[test]
fn sizes_add_up_and_wrap() {
    assert_eq!(SizeScan::new().total(), 0);
    assert_eq!(SizeScan::new().count(3).count(4).total(), 7);
    assert_eq!(SizeScan::new().count(u64::MAX).count(3).total(), 2);
}

fn key(i: u64) -> Vec<u8> {
    vec![i as u8, (i >> 8) as u8]
}

fn times<O: EntryOrder>(top: TopEntries<O>) -> Vec<u64> {
    top.finish().into_iter().map(|(_, e)| e.save_time).collect()
}

#[test]
fn the_oldest_entries_are_kept() {
    let mut top = TopEntries::new(2, OldestFirst);
    for t in [5u64, 9, 1] {
        top = top.offer(key(t), image(1, t));
    }
    assert_eq!(times(top), vec![1, 5]);

    let mut top = TopEntries::new(3, OldestFirst);
    for t in [4u64, 4, 8, 2, 9, 3, 7] {
        top = top.offer(key(t), image(1, t));
    }
    assert_eq!(times(top), vec![2, 3, 4]);

    let top = TopEntries::new(0, OldestFirst).offer(key(1), image(1, 1));
    assert_eq!(times(top), Vec::<u64>::new());
    assert_eq!(times(TopEntries::new(4, OldestFirst)), Vec::<u64>::new());
}

/// The largest images go first.
struct LargestFirst;

impl EntryOrder for LargestFirst {
    fn first(self, a: ImageEntry, b: ImageEntry) -> bool {
        a.bytes_len >= b.bytes_len
    }

    fn total(self, _: ImageEntry, _: ImageEntry) {}

    fn transitive(self, _: ImageEntry, _: ImageEntry, _: ImageEntry) {}

    fn may_go_first(&self, a: &ImageEntry, b: &ImageEntry) -> bool {
        a.bytes_len >= b.bytes_len
    }
}

#[test]
fn entries_are_kept_by_any_order() {
    let mut top = TopEntries::new(2, LargestFirst);
    for (time, size) in [(1u64, 5usize), (2, 9), (3, 1), (4, 7)] {
        top = top.offer(key(time), image(size, time));
    }
    assert_eq!(times(top), vec![2, 4]);
}

#[test]
fn unreadable_records_are_handed_back() {
    let (top, dropped) = TopEntries::new(2, OldestFirst).scan(key(1), None);
    assert_eq!(dropped, Some(key(1)));
    let (top, dropped) = top.scan(key(2), Some(image(1, 2)));
    assert_eq!(dropped, None);
    assert_eq!(times(top), vec![2]);

    let (scan, dropped) = rocks::scan_size(SizeScan::new(), key(1), None);
    assert_eq!(dropped, Some(key(1)));
    let (scan, dropped) = rocks::scan_size(scan, key(2), Some(image(9, 2)));
    assert_eq!(dropped, None);
    assert_eq!(scan.total(), 9);
}

/// Runs an eviction on records of the given sizes, each saved later than the one before it. Gives
/// the records that are left and the size that is reported.
fn evict(sizes: &[usize], until: u64, limit: usize) -> (Vec<u64>, u64) {
    let mut db: Vec<(u64, usize)> = sizes.iter().enumerate().map(|(i, s)| (i as u64, *s)).collect();
    // the order in the database is not the order of age
    db.reverse();
    let total: usize = sizes.iter().sum();
    let mut evictor = Evictor::new(total as u64, until);
    loop {
        let (next, step) = evictor.next();
        evictor = next;
        match step {
            EvictStep::Refill => {
                let mut top = TopEntries::new(limit, OldestFirst);
                for (t, s) in &db {
                    top = top.offer(key(*t), image(*s, *t));
                }
                evictor = evictor.refill(top);
            }
            EvictStep::Drop(k) => db.retain(|(t, _)| key(*t) != k),
            EvictStep::Done(size) => {
                return (db.into_iter().map(|(t, _)| t).collect(), size);
            }
        }
    }
}

#[test]
fn eviction_drops_the_oldest_until_small_enough() {
    assert_eq!(evict(&[10, 20, 30, 40], 70, 256), (vec![3, 2], 70));
    assert_eq!(evict(&[10, 20, 30, 40], 69, 256), (vec![3], 40));
    // the queue is refilled
    assert_eq!(evict(&[10, 20, 30, 40], 40, 1), (vec![3], 40));
    assert_eq!(evict(&[10, 20, 30, 40], 0, 2), (vec![], 0));
}

#[test]
fn eviction_drops_at_least_one_record() {
    assert_eq!(evict(&[10, 20], 1000, 256), (vec![1], 20));
}

#[test]
fn eviction_of_an_empty_database() {
    assert_eq!(evict(&[], 0, 256), (vec![], 0));
    let (evictor, step) = Evictor::new(50, 10).next();
    assert!(matches!(step, EvictStep::Refill));
    let (_, step) = evictor.refill(TopEntries::new(256, OldestFirst)).next();
    assert!(matches!(step, EvictStep::Done(50)));
}

#[test]
fn eviction_is_accounted_for() {
    let mut cache = RocksCache::new();
    cache.fetch_real_size(SizeScan::new().count(30).count(40), 5);
    let (evictor, _) = cache.evict_entries_fifo(50).next();
    let top = TopEntries::new(rocks::QUEUE_LEN, OldestFirst).offer(key(1), image(30, 1));
    let (evictor, step) = evictor.refill(top).next();
    assert!(matches!(step, EvictStep::Drop(k) if k == key(1)));
    let (_, step) = evictor.next();
    match step {
        EvictStep::Done(size) => {
            assert_eq!(size, 40);
            cache.evicted(size);
        }
        _ => panic!("the eviction is over"),
    }
    assert_eq!(cache.report(Ok(())), 40);
}

#[test]
fn rocks_size_is_counted_and_found_anew() {
    let mut cache = RocksCache::new();
    assert_eq!(cache.report(Ok(())), 0);
    cache.fetch_real_size(SizeScan::new().count(100), 1_000);
    cache.save_entry(&image(23, 1));
    assert_eq!(cache.report(Ok(())), 123);
    assert_eq!(cache.report(Err(())), 0);
    assert!(!cache.is_stale(1_000 + 3_600_000));
    assert!(cache.is_stale(1_000 + 3_600_001));
    // a clock that went back
    assert!(cache.is_stale(999));
}

#[test]
fn file_system_size_is_counted_and_found_anew() {
    let mut cache = fs::FileSystemCache::new(SizeScan::new().count(100), 1_000);
    assert_eq!(cache.report(), 100);
    cache.save_to_db(23);
    assert_eq!(cache.report(), 123);
    assert!(!cache.is_stale(1_000 + 3_599_999));
    assert!(cache.is_stale(1_000 + 3_600_000));
    let scan = fs::scan_size(fs::scan_size(SizeScan::new(), Some(7)), None);
    assert_eq!(cache.update_real_size(scan, None), 7);
    assert!(cache.is_stale(1_000 + 3_600_000));
    assert_eq!(cache.update_real_size(SizeScan::new(), Some(5_000)), 0);
    assert!(!cache.is_stale(1_000 + 3_600_000));
}

#[test]
fn file_system_errors_have_texts() {
    assert_eq!(
        fs::CacheError::Forceps("x".to_string()).to_text(),
        "ce-filesystem/forceps - \"x\""
    );
    assert_eq!(
        fs::CacheError::Bincode("y".to_string()).to_text(),
        "ce-filesystem/bincode - \"y\""
    );
}

#[test]
fn file_system_options() {
    let opts = fs::fs_opts(&FsConfig {
        path: "x".to_string(),
        rw_buffer_size: 16,
        lru_size_mebibytes: 128,
    });
    assert_eq!(opts.memory_lru_max_size, 128 * MIB);
    assert_eq!(opts.read_write_buffer, 16 * 1024);
}

fn rocks_config() -> RocksConfig {
    RocksConfig {
        path: "db".to_string(),
        disable_bloom_filter: false,
        lru_size: None,
        parallelism: None,
        write_buffer_size: None,
        write_rate_limit: None,
    }
}

#[test]
fn rocks_options_by_default() {
    let block = rocks::block_cf_opts(&rocks_config());
    assert_eq!(block.format_version, 5);
    assert_eq!(block.bloom_bits, Some(10));
    assert_eq!(block.lru_bytes, Some(64 * MIB));
    let db = rocks::db_opts(&rocks_config());
    assert_eq!(db.keep_log_files, 30);
    assert_eq!(db.parallelism, 2);
    assert_eq!(db.background_jobs, 6);
    assert_eq!(db.compaction_readahead_bytes, 8 * MIB);
    assert_eq!(db.level_compaction_bytes, 512 * MIB);
    assert_eq!(db.bytes_per_second, None);
    assert_eq!(db.write_buffer_bytes, 64 * MIB);
}

#[test]
fn rocks_options_as_configured() {
    let conf = RocksConfig {
        disable_bloom_filter: true,
        lru_size: Some(0),
        parallelism: Some(8),
        write_buffer_size: Some(3),
        write_rate_limit: Some(5),
        ..rocks_config()
    };
    let block = rocks::block_cf_opts(&conf);
    assert_eq!(block.bloom_bits, None);
    assert_eq!(block.lru_bytes, None);
    let db = rocks::db_opts(&conf);
    assert_eq!(db.parallelism, 8);
    assert_eq!(db.bytes_per_second, Some(5 * 1024 * 1024));
    assert_eq!(db.write_buffer_bytes, 3 * MIB);
}
