//! Laws of the eviction: what it drops, in which order, and the size that it leaves.

use crate::cache::entry::{is_metadata_of, ImageEntry};
use crate::cache::rocks::{
    best_of, eviction_is_accounted, size_after, sizes_of, EntryOrder, EvictStep, Evictor,
    OldestFirst, Record, RocksCache, TopEntries,
};
use crate::cache::size::{lemma_low64_sub, sum};
use crate::outside::buffers::content;
use vstd::multiset::*;
use vstd::prelude::*;

verus! {

/// The bytes of images that records account for, by the lengths that they keep.
pub open spec fn bytes_in(records: Seq<Record>) -> int {
    records.fold_left(0int, |total: int, r: Record| total + r.1.bytes_len)
}

proof fn lemma_bytes_in(records: Seq<Record>)
    ensures
        sum(sizes_of(records)) == bytes_in(records),
        bytes_in(records) >= 0,
    decreases records.len(),
{
    reveal_with_fuel(Seq::fold_left, 2);
    if records.len() > 0 {
        lemma_bytes_in(records.drop_last());
        assert(sizes_of(records).drop_last() =~= sizes_of(records.drop_last()));
        assert(sizes_of(records).last() == records.last().1.bytes_len);
    }
}

/// A new eviction has dropped nothing, and begins with the size that is reported.
pub proof fn evictions_begin_with_the_reported_size(
    cache: &RocksCache,
    reported: u64,
    until: u64,
    evictor: Evictor,
)
    requires
        call_ensures(RocksCache::report, (cache, Ok(())), reported),
        call_ensures(RocksCache::evict_entries_fifo, (cache, until), evictor),
    ensures
        evictor.start() == reported,
        evictor.size() == reported,
        evictor.until() == until,
        evictor.dropped().len() == 0,
        evictor.queue().len() == 0,
        !evictor.exhausted(),
{
    lemma_bytes_in(evictor.dropped());
    reveal_with_fuel(Seq::fold_left, 2);
    eviction_is_accounted(reported, evictor.dropped());
}

/// Dropping a record lowers the size by exactly the length that its entry keeps, whatever bytes the
/// entry holds; below zero it goes on from two to the power of 64. The key that is handed out is that of the record, which was in the database and is
/// not older than any other.
pub proof fn a_drop_lowers_the_size(evictor: Evictor, key: Vec<u8>, next: Evictor)
    requires
        call_ensures(Evictor::next, (evictor,), (next, EvictStep::Drop(key))),
    ensures
        next.dropped().len() == evictor.dropped().len() + 1,
        next.dropped().drop_last() == evictor.dropped(),
        ({
            let record = next.dropped().last();
            &&& key == record.0
            &&& record.1.bytes_len <= evictor.size() ==> next.size() == evictor.size()
                - record.1.bytes_len
            &&& record.1.bytes_len > evictor.size() ==> next.size() == evictor.size()
                - record.1.bytes_len + 0x1_0000_0000_0000_0000
            &&& evictor.live().contains(record)
            &&& next.live() == evictor.live().remove(record)
            &&& forall|other: Record| #[trigger]
                evictor.live().contains(other) ==> record.1.save_time <= other.1.save_time
        }),
        next.dropped().last() == evictor.queue()[0],
        next.queue().len() == evictor.queue().len() - 1,
        forall|i: int|
            0 <= i < next.queue().len() ==> #[trigger] next.queue()[i] == evictor.queue()[i + 1],
        evictor.dropped().len() == 0 || evictor.size() > evictor.until(),
        next.start() == evictor.start(),
        next.until() == evictor.until(),
{
    let record = next.dropped().last();
    let (before, after) = (evictor.dropped(), next.dropped());
    assert(after.drop_last() =~= before);
    assert(before.take(before.len() as int) =~= before);
    assert(after.take(after.len() as int) =~= after);
    lemma_bytes_in(before);
    lemma_bytes_in(after);
    reveal_with_fuel(Seq::fold_left, 2);
    assert(bytes_in(after) == bytes_in(before) + record.1.bytes_len);
    if record.1.bytes_len <= evictor.size() {
        lemma_low64_sub(
            evictor.start() - bytes_in(before),
            record.1.bytes_len,
            (evictor.size() - record.1.bytes_len) as u64,
        );
    } else {
        lemma_low64_sub(
            evictor.start() - bytes_in(before),
            record.1.bytes_len,
            (evictor.size() - record.1.bytes_len + 0x1_0000_0000_0000_0000) as u64,
        );
    }
    assert forall|other: Record| #[trigger] evictor.live().contains(other) implies
        record.1.save_time <= other.1.save_time by {
        assert(crate::cache::rocks::saved(record) <= crate::cache::rocks::saved(other));
    }
}

/// Dropping the metadata of an image lowers the size by the length of the image, though the bytes of
/// the image are stored apart.
pub proof fn a_drop_frees_the_image(
    evictor: Evictor,
    key: Vec<u8>,
    next: Evictor,
    image: ImageEntry,
)
    requires
        call_ensures(Evictor::next, (evictor,), (next, EvictStep::Drop(key))),
        is_metadata_of(next.dropped().last().1, image),
        image.complete(),
        content(image.bytes).len() <= evictor.size(),
    ensures
        next.size() == evictor.size() - content(image.bytes).len(),
{
    a_drop_lowers_the_size(evictor, key, next);
}

/// An eviction ends with the size that the dropped records leave. It ends where the size is small
/// enough, once a record was dropped, or where the database is empty; and fewer records would not
/// have done.
pub proof fn an_eviction_leaves_the_rest(evictor: Evictor, size: u64, next: Evictor)
    requires
        call_ensures(Evictor::next, (evictor,), (next, EvictStep::Done(size))),
    ensures
        (evictor.start() - bytes_in(evictor.dropped()) - size) % 0x1_0000_0000_0000_0000 == 0,
        bytes_in(evictor.dropped()) <= evictor.start() ==> size == evictor.start() - bytes_in(
            evictor.dropped(),
        ),
        evictor.exhausted() || (size <= evictor.until() && evictor.dropped().len() > 0),
        forall|k: int|
            1 <= k < evictor.dropped().len() && bytes_in(evictor.dropped()) <= evictor.start()
                ==> evictor.start() - bytes_in(
                #[trigger] evictor.dropped().take(k),
            ) > evictor.until(),
{
    let all = evictor.dropped();
    lemma_bytes_in(all);
    assert(all.take(all.len() as int) =~= all);
    if bytes_in(all) <= evictor.start() {
        eviction_is_accounted(evictor.start(), all);
    }
    assert forall|k: int| 1 <= k < all.len() && bytes_in(all) <= evictor.start() implies evictor.start() - bytes_in(
        #[trigger] all.take(k),
    ) > evictor.until() by {
        lemma_bytes_in(all.take(k));
        lemma_part_is_less(all, k);
        assert(size_after(evictor.start(), all, k) > evictor.until());
        vstd::arithmetic::div_mod::lemma_small_mod(
            (evictor.start() - bytes_in(all.take(k))) as nat,
            0x1_0000_0000_0000_0000nat,
        );
    }
}

proof fn lemma_part_is_less(records: Seq<Record>, k: int)
    requires
        0 <= k <= records.len(),
    ensures
        bytes_in(records.take(k)) <= bytes_in(records),
    decreases records.len(),
{
    if k < records.len() {
        lemma_part_is_less(records.drop_last(), k);
        assert(records.drop_last().take(k) =~= records.take(k));
        reveal_with_fuel(Seq::fold_left, 2);
    } else {
        assert(records.take(k) =~= records);
    }
}

/// An eviction asks for a new queue only where there is none, and the size is still too large or
/// nothing was dropped yet. Taking one changes neither the size nor what was dropped; the queue holds
/// the oldest of the records in the database, from the oldest on.
pub proof fn a_refill_brings_the_oldest(
    asking: Evictor,
    evictor: Evictor,
    top: TopEntries<OldestFirst>,
    next: Evictor,
)
    requires
        call_ensures(Evictor::next, (asking,), (evictor, EvictStep::Refill)),
        call_ensures(Evictor::refill, (evictor, top), next),
    ensures
        asking.queue().len() == 0,
        asking.dropped().len() == 0 || asking.size() > asking.until(),
        next.size() == asking.size(),
        next.start() == asking.start(),
        next.until() == asking.until(),
        next.dropped() == asking.dropped(),
        next.live() == top.offered(),
        next.exhausted() == (top.offered().len() == 0),
        next.queue().to_multiset().subset_of(top.offered()),
        next.queue().len() == if top.offered().len() < top.limit() {
            top.offered().len()
        } else {
            top.limit()
        },
        forall|i: int, j: int|
            0 <= i <= j < next.queue().len() ==> (#[trigger] next.queue()[i]).1.save_time <= (
            #[trigger] next.queue()[j]).1.save_time,
        forall|i: int, other: Record|
            0 <= i < next.queue().len() && #[trigger] top.offered().sub(
                next.queue().to_multiset(),
            ).contains(other) ==> (#[trigger] next.queue()[i]).1.save_time <= other.1.save_time,
{
    crate::cache::rocks::the_first_are_the_oldest(next.queue(), top.offered(), top.limit());
}

/// What is kept of the records that were offered are as many as the limit says of the oldest, from the
/// oldest on.
pub proof fn the_oldest_are_kept(top: TopEntries<OldestFirst>, records: Vec<Record>)
    requires
        call_ensures(TopEntries::<OldestFirst>::finish, (top,), records),
        top.order() == OldestFirst,
    ensures
        records@.to_multiset().subset_of(top.offered()),
        records@.len() == if top.offered().len() < top.limit() {
            top.offered().len()
        } else {
            top.limit()
        },
        forall|i: int, j: int|
            0 <= i <= j < records@.len() ==> (#[trigger] records@[i]).1.save_time <= (
            #[trigger] records@[j]).1.save_time,
        forall|i: int, other: Record|
            0 <= i < records@.len() && #[trigger] top.offered().sub(
                records@.to_multiset(),
            ).contains(other) ==> (#[trigger] records@[i]).1.save_time <= other.1.save_time,
{
}

/// Whatever the order, what is kept is in the order, and nothing that is left out goes strictly before
/// anything that is kept.
pub proof fn the_first_are_kept<O: EntryOrder>(top: TopEntries<O>, records: Vec<Record>)
    requires
        call_ensures(TopEntries::<O>::finish, (top,), records),
    ensures
        records@.to_multiset().subset_of(top.offered()),
        records@.len() == if top.offered().len() < top.limit() {
            top.offered().len()
        } else {
            top.limit()
        },
        forall|i: int, j: int|
            0 <= i <= j < records@.len() ==> top.order().first(
                (#[trigger] records@[i]).1,
                (#[trigger] records@[j]).1,
            ),
        forall|i: int, other: Record|
            0 <= i < records@.len() && #[trigger] top.offered().sub(
                records@.to_multiset(),
            ).contains(other) ==> top.order().first((#[trigger] records@[i]).1, other.1),
{
    assert(best_of(top.order(), records@, top.offered(), top.limit()));
}

/// A record whose entry can be read is offered, and no other; the key of one that cannot be read comes
/// back.
pub proof fn readable_records_are_offered<O: EntryOrder>(
    limit: usize,
    order: O,
    empty: TopEntries<O>,
    top: TopEntries<O>,
    key: Vec<u8>,
    found: Option<ImageEntry>,
    r: (TopEntries<O>, Option<Vec<u8>>),
    offered: TopEntries<O>,
)
    requires
        call_ensures(TopEntries::<O>::new, (limit, order), empty),
        call_ensures(TopEntries::<O>::scan, (top, key, found), r),
        found matches Some(entry) ==> call_ensures(
            TopEntries::<O>::offer,
            (top, key, entry),
            offered,
        ),
    ensures
        found is Some ==> offered.offered() == r.0.offered() && offered.limit() == r.0.limit()
            && offered.order() == r.0.order(),
        empty.offered().len() == 0,
        empty.limit() == limit,
        empty.order() == order,
        r.0.limit() == top.limit(),
        r.0.order() == top.order(),
        match found {
            Some(entry) => {
                &&& r.1 is None
                &&& r.0.offered().len() == top.offered().len() + 1
                &&& r.0.offered().count((key, entry)) == top.offered().count((key, entry)) + 1
                &&& forall|other: Record|
                    other != (key, entry) ==> #[trigger] r.0.offered().count(other)
                        == top.offered().count(other)
            },
            None => r.1 == Some(key) && r.0 == top,
        },
{
    broadcast use group_multiset_axioms;

}

} // verus!
