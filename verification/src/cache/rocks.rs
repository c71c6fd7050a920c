//! Bookkeeping of the RocksDB cache engine: the size of the database, and what to evict from it.

use crate::cache::entry::ImageEntry;
use crate::cache::size::{lemma_low64_add, lemma_low64_sub, low64, sum, SizeScan};
use crate::config::RocksConfig;
use vstd::multiset::*;
use vstd::prelude::*;

verus! {

/// A record of the metadata: the bytes of its key, and its entry.
pub type Record = (Vec<u8>, ImageEntry);

/// When the image of a record was saved.
pub open spec fn saved(r: Record) -> int {
    r.1.save_time as int
}

/// Records from the oldest to the newest.
pub open spec fn oldest_first(records: Seq<Record>) -> bool {
    forall|i: int, j: int| 0 <= i <= j < records.len() ==> saved(records[i]) <= saved(records[j])
}

/// `kept` are as many as `limit` of the oldest records in `all`, from the oldest on: nothing that is
/// left out is older than anything that is kept.
pub open spec fn oldest_of(kept: Seq<Record>, all: Multiset<Record>, limit: nat) -> bool {
    &&& oldest_first(kept)
    &&& kept.to_multiset().subset_of(all)
    &&& kept.len() == if all.len() < limit { all.len() } else { limit }
    &&& forall|i: int, r: Record|
        0 <= i < kept.len() && #[trigger] all.sub(kept.to_multiset()).contains(r) ==> saved(
            #[trigger] kept[i],
        ) <= saved(r)
}

/// An order in which records are preferred, by their entries. Entries may be equally preferred.
pub trait EntryOrder: Sized {
    /// `a` may go before `b`.
    spec fn first(self, a: ImageEntry, b: ImageEntry) -> bool;

    /// Of any two entries one may go before the other.
    proof fn total(self, a: ImageEntry, b: ImageEntry)
        ensures
            self.first(a, b) || self.first(b, a),
    ;

    /// What goes before an entry goes before all that the entry goes before.
    proof fn transitive(self, a: ImageEntry, b: ImageEntry, c: ImageEntry)
        requires
            self.first(a, b),
            self.first(b, c),
        ensures
            self.first(a, c),
    ;

    /// Whether `a` may go before `b`.
    fn may_go_first(&self, a: &ImageEntry, b: &ImageEntry) -> (may: bool)
        ensures
            may == self.first(*a, *b),
    ;
}

/// The order of eviction: the oldest entries go first.
pub struct OldestFirst;

impl EntryOrder for OldestFirst {
    open spec fn first(self, a: ImageEntry, b: ImageEntry) -> bool {
        a.save_time <= b.save_time
    }

    proof fn total(self, a: ImageEntry, b: ImageEntry) {
    }

    proof fn transitive(self, a: ImageEntry, b: ImageEntry, c: ImageEntry) {
    }

    fn may_go_first(&self, a: &ImageEntry, b: &ImageEntry) -> (may: bool) {
        a.save_time <= b.save_time
    }
}

/// Records in an order.
pub open spec fn in_order<O: EntryOrder>(order: O, records: Seq<Record>) -> bool {
    forall|i: int, j: int|
        0 <= i <= j < records.len() ==> order.first(
            (#[trigger] records[i]).1,
            (#[trigger] records[j]).1,
        )
}

/// `kept` are as many as `limit` of the first records in `all` by an order, and in that order: nothing
/// that is left out had to go before anything that is kept.
pub open spec fn best_of<O: EntryOrder>(
    order: O,
    kept: Seq<Record>,
    all: Multiset<Record>,
    limit: nat,
) -> bool {
    &&& in_order(order, kept)
    &&& kept.to_multiset().subset_of(all)
    &&& kept.len() == if all.len() < limit { all.len() } else { limit }
    &&& forall|i: int, r: Record|
        0 <= i < kept.len() && #[trigger] all.sub(kept.to_multiset()).contains(r) ==> order.first(
            (#[trigger] kept[i]).1,
            r.1,
        )
}

/// The first records by the order of eviction are the oldest ones.
pub proof fn the_first_are_the_oldest(kept: Seq<Record>, all: Multiset<Record>, limit: nat)
    ensures
        best_of(OldestFirst, kept, all, limit) == oldest_of(kept, all, limit),
{
}

/// A record at its place leaves the records in order.
proof fn lemma_insert_in_order<O: EntryOrder>(order: O, s: Seq<Record>, at: int, r: Record)
    requires
        in_order(order, s),
        0 <= at <= s.len(),
        forall|i: int| 0 <= i < at ==> order.first((#[trigger] s[i]).1, r.1),
        forall|i: int| at <= i < s.len() ==> !order.first((#[trigger] s[i]).1, r.1),
    ensures
        in_order(order, s.insert(at, r)),
{
    let t = s.insert(at, r);
    assert forall|i: int, j: int| 0 <= i <= j < t.len() implies order.first(
        (#[trigger] t[i]).1,
        (#[trigger] t[j]).1,
    ) by {
        let a = if i < at { i } else { i - 1 };
        let b = if j < at { j } else { j - 1 };
        if i == at && j == at {
            order.total(r.1, r.1);
        } else if i == at {
            assert(t[j] == s[b]);
            order.total(s[b].1, r.1);
        } else if j == at {
            assert(t[i] == s[a]);
        } else {
            assert(t[i] == s[a] && t[j] == s[b]);
        }
    }
}

/// Inserting a record anywhere adds it to the multiset.
proof fn lemma_insert_to_multiset(s: Seq<Record>, at: int, r: Record)
    requires
        0 <= at <= s.len(),
    ensures
        s.insert(at, r).to_multiset() == s.to_multiset().insert(r),
{
    broadcast use group_multiset_axioms;

    let t = s.insert(at, r);
    t.to_multiset_ensures();
    assert(t.remove(at) =~= s);
    assert(t[at] == r);
    assert(t.contains(r));
    assert(t.to_multiset() =~= s.to_multiset().insert(r));
}

/// With room left, every record offered is kept, so one more can be.
proof fn lemma_keep_more<O: EntryOrder>(
    order: O,
    kept: Seq<Record>,
    all: Multiset<Record>,
    limit: nat,
    at: int,
    r: Record,
)
    requires
        best_of(order, kept, all, limit),
        kept.len() < limit,
        0 <= at <= kept.len(),
        in_order(order, kept.insert(at, r)),
    ensures
        best_of(order, kept.insert(at, r), all.insert(r), limit),
{
    broadcast use group_multiset_axioms;

    let bag = kept.to_multiset();
    let after = kept.insert(at, r);
    kept.to_multiset_ensures();
    lemma_insert_to_multiset(kept, at, r);
    assert(all.sub(bag).len() == 0);
    assert(all.insert(r).sub(after.to_multiset()) =~= all.sub(bag));
    assert forall|x: Record| !(#[trigger] all.sub(bag).contains(x)) by {
        axiom_count_le_len(all.sub(bag), x);
    }
    assert(after.to_multiset().subset_of(all.insert(r)));
}

/// A record that does not go before the last kept one is left out, if there is no room for it.
proof fn lemma_leave_out<O: EntryOrder>(
    order: O,
    kept: Seq<Record>,
    all: Multiset<Record>,
    limit: nat,
    r: Record,
)
    requires
        best_of(order, kept, all, limit),
        kept.len() == limit,
        kept.len() > 0 ==> order.first(kept.last().1, r.1),
    ensures
        best_of(order, kept, all.insert(r), limit),
{
    broadcast use group_multiset_axioms;

    let bag = kept.to_multiset();
    kept.to_multiset_ensures();
    assert(all.insert(r).sub(bag) =~= all.sub(bag).insert(r));
    assert(bag.subset_of(all.insert(r)));
    assert forall|i: int, x: Record|
        0 <= i < kept.len() && #[trigger] all.insert(r).sub(bag).contains(x) implies order.first(
        (#[trigger] kept[i]).1,
        x.1,
    ) by {
        if x == r {
            assert(order.first(kept[i].1, kept[kept.len() - 1].1));
            order.transitive(kept[i].1, kept.last().1, r.1);
        } else {
            assert(all.sub(bag).contains(x));
        }
    }
}

/// A record that goes before the last kept one takes its place.
proof fn lemma_replace_last<O: EntryOrder>(
    order: O,
    kept: Seq<Record>,
    all: Multiset<Record>,
    limit: nat,
    at: int,
    r: Record,
)
    requires
        best_of(order, kept, all, limit),
        kept.len() == limit,
        kept.len() > 0,
        !order.first(kept.last().1, r.1),
        0 <= at < kept.len(),
        in_order(order, kept.drop_last().insert(at, r)),
    ensures
        best_of(order, kept.drop_last().insert(at, r), all.insert(r), limit),
{
    broadcast use group_multiset_axioms;

    let bag = kept.to_multiset();
    let out = kept.last();
    let less = kept.drop_last();
    let after = less.insert(at, r);
    kept.to_multiset_ensures();
    assert(kept.remove(kept.len() - 1) =~= less);
    assert(kept.contains(out));
    lemma_insert_to_multiset(less, at, r);
    assert(after.to_multiset() =~= bag.remove(out).insert(r));
    assert(after.to_multiset().subset_of(all.insert(r)));
    let rest = all.insert(r).sub(after.to_multiset());
    assert(rest =~= all.sub(bag).insert(out));
    assert forall|i: int, x: Record|
        0 <= i < after.len() && #[trigger] rest.contains(x) implies order.first(
        (#[trigger] after[i]).1,
        x.1,
    ) by {
        assert(order.first(after[i].1, out.1)) by {
            let last = kept.len() - 1;
            if i < at {
                assert(after[i] == kept[i]);
                assert(order.first(kept[i].1, kept[last].1));
            } else if i > at {
                assert(after[i] == kept[i - 1]);
                assert(order.first(kept[i - 1].1, kept[last].1));
            } else {
                order.total(r.1, out.1);
            }
        }
        if x != out {
            assert(all.sub(bag).contains(x));
            assert(order.first(kept[kept.len() - 1].1, x.1));
            order.transitive(after[i].1, out.1, x.1);
        }
    }
}

/// Keeps the first of the records that it is offered, by some order and up to a limit.
pub struct TopEntries<O: EntryOrder> {
    limit: usize,
    order: O,
    kept: Vec<Record>,
    offered: Ghost<Multiset<Record>>,
}

impl<O: EntryOrder> TopEntries<O> {
    /// The most records that are kept.
    pub closed spec fn limit(self) -> nat {
        self.limit as nat
    }

    /// The order in which records are preferred.
    pub closed spec fn order(self) -> O {
        self.order
    }

    /// The records that were offered.
    pub closed spec fn offered(self) -> Multiset<Record> {
        self.offered@
    }

    #[verifier::type_invariant]
    spec fn inv(self) -> bool {
        best_of(self.order, self.kept@, self.offered@, self.limit as nat)
    }

    /// Nothing offered yet.
    pub fn new(limit: usize, order: O) -> (top: Self)
        ensures
            top.limit() == limit,
            top.order() == order,
            top.offered() == Multiset::<Record>::empty(),
    {
        broadcast use group_multiset_axioms;

        let kept: Vec<Record> = Vec::new();
        proof {
            kept@.to_multiset_ensures();
            assert(kept@.to_multiset() =~= Multiset::<Record>::empty());
        }
        TopEntries { limit, order, kept, offered: Ghost(Multiset::empty()) }
    }

    /// The place for an entry among records that are in order: behind all that may go before it.
    fn place(order: &O, kept: &Vec<Record>, entry: &ImageEntry) -> (at: usize)
        requires
            in_order(*order, kept@),
        ensures
            at <= kept.len(),
            forall|i: int| 0 <= i < at ==> order.first((#[trigger] kept@[i]).1, *entry),
            forall|i: int| at <= i < kept.len() ==> !order.first((#[trigger] kept@[i]).1, *entry),
    {
        let mut at: usize = 0;
        while at < kept.len() && order.may_go_first(&kept[at].1, entry)
            invariant
                at <= kept.len(),
                forall|i: int| 0 <= i < at ==> order.first((#[trigger] kept@[i]).1, *entry),
            decreases kept.len() - at,
        {
            at += 1;
        }
        proof {
            assert forall|i: int| at <= i < kept.len() implies !order.first(
                (#[trigger] kept@[i]).1,
                *entry,
            ) by {
                let here = at as int;
                assert(order.first(kept@[here].1, kept@[i].1));
                if order.first(kept@[i].1, *entry) {
                    order.transitive(kept@[here].1, kept@[i].1, *entry);
                }
            }
        }
        at
    }

    /// Takes one record of a walk through the metadata. A record whose entry cannot be read is not
    /// offered; its key comes back, to be dropped from the database.
    pub fn scan(self, key: Vec<u8>, found: Option<ImageEntry>) -> (r: (Self, Option<Vec<u8>>))
        ensures
            r.0.limit() == self.limit(),
            r.0.order() == self.order(),
            match found {
                Some(entry) => r.1 is None && r.0.offered() == self.offered().insert((key, entry)),
                None => r.1 == Some(key) && r.0 == self,
            },
    {
        match found {
            Some(entry) => (self.offer(key, entry), None),
            None => (self, Some(key)),
        }
    }

    /// Offers one more record.
    pub fn offer(self, key: Vec<u8>, entry: ImageEntry) -> (top: Self)
        ensures
            top.limit() == self.limit(),
            top.order() == self.order(),
            top.offered() == self.offered().insert((key, entry)),
    {
        proof {
            use_type_invariant(&self);
        }
        let TopEntries { limit, order, mut kept, offered } = self;
        let ghost before = kept@;
        let ghost r: Record = (key, entry);
        if kept.len() < limit {
            let at: usize = Self::place(&order, &kept, &entry);
            kept.insert(at, (key, entry));
            proof {
                assert(kept@ =~= before.insert(at as int, r));
                lemma_insert_in_order(order, before, at as int, r);
                lemma_keep_more(order, before, offered@, limit as nat, at as int, r);
            }
        } else if kept.len() > 0 && !order.may_go_first(&kept[kept.len() - 1].1, &entry) {
            let last = kept.pop();
            proof {
                assert(kept@ =~= before.drop_last());
                assert(in_order(order, kept@));
            }
            let at: usize = Self::place(&order, &kept, &entry);
            kept.insert(at, (key, entry));
            proof {
                assert(kept@ =~= before.drop_last().insert(at as int, r));
                lemma_insert_in_order(order, before.drop_last(), at as int, r);
                lemma_replace_last(order, before, offered@, limit as nat, at as int, r);
            }
        } else {
            proof {
                lemma_leave_out(order, before, offered@, limit as nat, r);
            }
        }
        TopEntries { limit, order, kept, offered: Ghost(offered@.insert(r)) }
    }

    /// The first of the records that were offered, in order.
    pub fn finish(self) -> (records: Vec<Record>)
        ensures
            best_of(self.order(), records@, self.offered(), self.limit()),
    {
        proof {
            use_type_invariant(&self);
        }
        self.kept
    }
}

/// The sizes of the images of records.
pub open spec fn sizes_of(records: Seq<Record>) -> Seq<u64> {
    records.map_values(|r: Record| r.1.bytes_len)
}

/// The size that is left of a database of `start` bytes, once the first `k` records of `dropped`
/// are gone from it.
pub open spec fn size_after(start: u64, dropped: Seq<Record>, k: int) -> int {
    low64(start - sum(sizes_of(dropped.take(k))))
}

/// Takes one record of a walk through the metadata into the size of the database. A record whose
/// entry cannot be read does not count; its key comes back, to be dropped from the database.
pub fn scan_size(scan: SizeScan, key: Vec<u8>, found: Option<ImageEntry>) -> (r: (
    SizeScan,
    Option<Vec<u8>>,
))
    ensures
        match found {
            Some(entry) => r.1 is None && r.0.sizes() == scan.sizes().push(entry.bytes_len),
            None => r.1 == Some(key) && r.0 == scan,
        },
{
    match found {
        Some(entry) => (scan.count(entry.get_bytes_len()), None),
        None => (scan, Some(key)),
    }
}

/// What the eviction needs next.
pub enum EvictStep {
    /// A new queue, of the oldest records that are in the database.
    Refill,
    /// The record with this key dropped from the database.
    Drop(Vec<u8>),
    /// Nothing: the database has this size now.
    Done(u64),
}

/// Evicts the oldest records of a database until it is small enough, or empty.
///
/// At least one record goes, if there is any. A record that could not be dropped ends the eviction:
/// the evictor is then given up.
pub struct Evictor {
    until: u64,
    size: u64,
    queue: Vec<Record>,
    exhausted: bool,
    done: bool,
    start: Ghost<u64>,
    dropped: Ghost<Seq<Record>>,
    live: Ghost<Multiset<Record>>,
}

impl Evictor {
    /// The size at which the eviction may stop.
    pub closed spec fn until(self) -> u64 {
        self.until
    }

    /// The size of the database before the eviction.
    pub closed spec fn start(self) -> u64 {
        self.start@
    }

    /// The records that were dropped, in this order.
    pub closed spec fn dropped(self) -> Seq<Record> {
        self.dropped@
    }

    /// The records that are to be dropped next, in this order.
    pub closed spec fn queue(self) -> Seq<Record> {
        self.queue@
    }

    /// The records in the database, as the last refill found it, without those dropped since.
    pub closed spec fn live(self) -> Multiset<Record> {
        self.live@
    }

    /// A refill found no record in the database.
    pub closed spec fn exhausted(self) -> bool {
        self.exhausted
    }

    /// The size of the database now.
    pub open spec fn size(self) -> int {
        size_after(self.start(), self.dropped(), self.dropped().len() as int)
    }

    /// The eviction is over: the database is empty, or a record was dropped and the size is right.
    pub open spec fn over(self) -> bool {
        self.exhausted() || (self.dropped().len() > 0 && self.size() <= self.until())
    }

    /// The oldest records went: they went from the oldest on, and none that is left is older than one
    /// that went.
    pub open spec fn oldest_went(self) -> bool {
        &&& oldest_first(self.dropped())
        &&& forall|i: int, r: Record|
            0 <= i < self.dropped().len() && #[trigger] self.live().contains(r) ==> saved(
                #[trigger] self.dropped()[i],
            ) <= saved(r)
    }

    #[verifier::type_invariant]
    spec fn inv(self) -> bool {
        &&& self.size == self.size()
        &&& self.done == self.over()
        &&& oldest_of(self.queue@, self.live@, self.queue@.len())
        &&& forall|k: int|
            1 <= k < self.dropped@.len() ==> #[trigger] size_after(self.start@, self.dropped@, k)
                > self.until
    }

    /// Starts the eviction from a database of `size` bytes.
    pub fn new(size: u64, until: u64) -> (evictor: Self)
        ensures
            evictor.start() == size,
            evictor.until() == until,
            evictor.dropped() == Seq::<Record>::empty(),
            evictor.queue() == Seq::<Record>::empty(),
            !evictor.exhausted(),
            evictor.oldest_went(),
    {
        broadcast use group_multiset_axioms;

        let queue: Vec<Record> = Vec::new();
        let ghost none = Seq::<Record>::empty();
        proof {
            queue@.to_multiset_ensures();
            assert(queue@.to_multiset() =~= Multiset::<Record>::empty());
            assert(sizes_of(none.take(0)) =~= Seq::<u64>::empty());
            vstd::arithmetic::div_mod::lemma_small_mod(size as nat, 0x1_0000_0000_0000_0000nat);
        }
        Evictor {
            until,
            size,
            queue,
            exhausted: false,
            done: false,
            start: Ghost(size),
            dropped: Ghost(none),
            live: Ghost(Multiset::empty()),
        }
    }

    /// Takes the oldest records of the database as the new queue. With none, the eviction is over.
    /// In a database to which nothing was saved since the eviction began, the oldest records keep
    /// going.
    pub fn refill(self, top: TopEntries<OldestFirst>) -> (evictor: Self)
        requires
            self.queue().len() == 0,
            !self.over(),
            top.limit() > 0,
        ensures
            evictor.start() == self.start(),
            evictor.until() == self.until(),
            evictor.dropped() == self.dropped(),
            evictor.live() == top.offered(),
            oldest_of(evictor.queue(), top.offered(), top.limit()),
            evictor.exhausted() == (top.offered().len() == 0),
            self.oldest_went() && (self.dropped().len() == 0 || top.offered().subset_of(
                self.live(),
            )) ==> evictor.oldest_went(),
    {
        broadcast use group_multiset_axioms;

        proof {
            use_type_invariant(&self);
        }
        let ghost all = top.offered();
        let ghost limit = top.limit();
        let queue: Vec<Record> = top.finish();
        proof {
            the_first_are_the_oldest(queue@, all, limit);
        }
        let none: bool = queue.len() == 0;
        proof {
            if self.oldest_went() && all.subset_of(self.live@) {
                assert forall|i: int, r: Record|
                    0 <= i < self.dropped@.len() && #[trigger] all.contains(r) implies saved(
                    #[trigger] self.dropped@[i],
                ) <= saved(r) by {
                    assert(self.live@.count(r) >= all.count(r));
                    assert(self.live().contains(r));
                    assert(saved(self.dropped()[i]) <= saved(r));
                }
            }
        }
        Evictor {
            until: self.until,
            size: self.size,
            queue,
            exhausted: none,
            done: none,
            start: self.start,
            dropped: self.dropped,
            live: Ghost(all),
        }
    }

    /// The next step. A record that is to be dropped counts as dropped from here on.
    ///
    /// What is dropped is among the oldest records in the database. The eviction is done as soon as
    /// enough is dropped, or nothing is left.
    pub fn next(self) -> (r: (Self, EvictStep))
        ensures
            r.0.start() == self.start(),
            r.0.until() == self.until(),
            r.0.exhausted() == self.exhausted(),
            self.oldest_went() ==> r.0.oldest_went(),
            match r.1 {
                EvictStep::Done(size) => {
                    &&& self.over()
                    &&& r.0 == self
                    &&& size == self.size()
                    &&& forall|k: int|
                        1 <= k < self.dropped().len() ==> #[trigger] size_after(
                            self.start(),
                            self.dropped(),
                            k,
                        ) > self.until()
                },
                EvictStep::Refill => !self.over() && self.queue().len() == 0 && r.0 == self,
                EvictStep::Drop(key) => {
                    let oldest = self.queue().first();
                    &&& !self.over()
                    &&& self.queue().len() > 0
                    &&& key == oldest.0
                    &&& r.0.queue() == self.queue().drop_first()
                    &&& r.0.dropped() == self.dropped().push(oldest)
                    &&& r.0.live() == self.live().remove(oldest)
                    &&& self.live().contains(oldest)
                    &&& forall|other: Record| #[trigger]
                        self.live().contains(other) ==> saved(oldest) <= saved(other)
                },
            },
    {
        broadcast use group_multiset_axioms;

        proof {
            use_type_invariant(&self);
        }
        if self.done {
            let size: u64 = self.size;
            return (self, EvictStep::Done(size));
        }
        if self.queue.len() == 0 {
            return (self, EvictStep::Refill);
        }
        let Evictor { until, size, mut queue, exhausted, done, start, dropped, live } = self;
        let ghost before = queue@;
        let record: Record = queue.remove(0);
        let ghost after = dropped@.push(record);
        let left: u64 = size.wrapping_sub(record.1.bytes_len);
        proof {
            let n = dropped@.len() as int;
            assert(before.remove(0) =~= before.drop_first());
            lemma_queue_front(before, live@);
            assert(after.take(n + 1) =~= after);
            assert(dropped@.take(n) =~= dropped@);
            assert(sizes_of(after).drop_last() =~= sizes_of(dropped@));
            assert(sum(sizes_of(after)) == sum(sizes_of(dropped@)) + record.1.bytes_len);
            lemma_low64_sub(start@ - sum(sizes_of(dropped@)), record.1.bytes_len, left);
            assert forall|k: int| 1 <= k < n + 1 implies #[trigger] size_after(start@, after, k)
                > until by {
                assert(after.take(k) =~= dropped@.take(k));
                assert(size_after(start@, after, k) == size_after(start@, dropped@, k));
            }
        }
        let evictor = Evictor {
            until,
            size: left,
            queue,
            exhausted,
            done: left <= until,
            start,
            dropped: Ghost(after),
            live: Ghost(live@.remove(record)),
        };
        proof {
            if self.oldest_went() {
                assert(self.live().contains(record));
                assert forall|i: int, r: Record|
                    0 <= i < after.len() && #[trigger] evictor.live().contains(r) implies saved(
                    #[trigger] after[i],
                ) <= saved(r) by {
                    assert(self.live().contains(r));
                    if i < after.len() - 1 {
                        assert(after[i] == self.dropped()[i]);
                    }
                }
                assert forall|i: int, j: int| 0 <= i <= j < after.len() implies saved(after[i])
                    <= saved(after[j]) by {
                    if j < after.len() - 1 {
                        assert(after[i] == self.dropped()[i] && after[j] == self.dropped()[j]);
                    } else if i < j {
                        assert(after[i] == self.dropped()[i] && after[j] == record);
                    }
                }
            }
        }
        (evictor, EvictStep::Drop(record.0))
    }
}

/// The front of a queue of the oldest records is one of the oldest, and without it the queue still
/// holds the oldest of what is left.
proof fn lemma_queue_front(queue: Seq<Record>, live: Multiset<Record>)
    requires
        oldest_of(queue, live, queue.len()),
        queue.len() > 0,
    ensures
        live.contains(queue.first()),
        forall|other: Record| #[trigger]
            live.contains(other) ==> saved(queue.first()) <= saved(other),
        oldest_of(
            queue.drop_first(),
            live.remove(queue.first()),
            queue.drop_first().len(),
        ),
{
    broadcast use group_multiset_axioms;

    let bag = queue.to_multiset();
    let front = queue.first();
    let rest = queue.drop_first();
    queue.to_multiset_ensures();
    assert(queue.remove(0) =~= rest);
    assert(queue.contains(front));
    assert forall|other: Record| #[trigger] live.contains(other) implies saved(front) <= saved(
        other,
    ) by {
        if queue.contains(other) {
            let i = choose|i: int| 0 <= i < queue.len() && queue[i] == other;
            assert(saved(queue[0]) <= saved(queue[i]));
        } else {
            assert(live.sub(bag).contains(other));
            assert(saved(queue[0]) <= saved(other));
        }
    }
    assert(rest.to_multiset() =~= bag.remove(front));
    assert(live.remove(front).sub(rest.to_multiset()) =~= live.sub(bag));
    assert(rest.to_multiset().subset_of(live.remove(front)));
    assert forall|i: int, r: Record|
        0 <= i < rest.len() && #[trigger] live.remove(front).sub(rest.to_multiset()).contains(
            r,
        ) implies saved(#[trigger] rest[i]) <= saved(r) by {
        assert(live.sub(bag).contains(r));
        assert(rest[i] == queue[i + 1]);
    }
}

/// Dropping records from a database that holds them leaves exactly the rest of its bytes.
pub proof fn eviction_is_accounted(start: u64, dropped: Seq<Record>)
    requires
        sum(sizes_of(dropped)) <= start,
    ensures
        size_after(start, dropped, dropped.len() as int) == start - sum(sizes_of(dropped)),
{
    assert(dropped.take(dropped.len() as int) =~= dropped);
    crate::cache::size::lemma_sum_is_not_negative(sizes_of(dropped));
    vstd::arithmetic::div_mod::lemma_small_mod(
        (start - sum(sizes_of(dropped))) as nat,
        0x1_0000_0000_0000_0000nat,
    );
}

/// The most records in a queue of the eviction.
pub const QUEUE_LEN: usize = 256;

/// Milliseconds for which the size of the database is taken from the counter.
pub const MIN_TIME: u64 = 3_600_000;

/// The size of the database as it is known, and when it was last found by a walk through the
/// metadata. Times are milliseconds since the epoch.
pub struct RocksCache {
    db_size: u64,
    last_fetch: u64,
}

impl RocksCache {
    /// The size as it is known.
    pub closed spec fn db_size(self) -> u64 {
        self.db_size
    }

    /// When the size was last found.
    pub closed spec fn last_fetch(self) -> u64 {
        self.last_fetch
    }

    /// Nothing is known yet.
    pub fn new() -> (cache: Self)
        ensures
            cache.db_size() == 0,
            cache.last_fetch() == 0,
    {
        RocksCache { db_size: 0, last_fetch: 0 }
    }

    /// Whether the size has to be found anew: the last walk was over an hour ago.
    pub fn is_stale(&self, now: u64) -> (stale: bool)
        ensures
            stale == (low64(now - self.last_fetch()) > 3_600_000),
    {
        let age: u64 = now.wrapping_sub(self.last_fetch);
        proof {
            vstd::arithmetic::div_mod::lemma_small_mod(now as nat, 0x1_0000_0000_0000_0000nat);
            lemma_low64_sub(now as int, self.last_fetch, age);
        }
        age > MIN_TIME
    }

    /// Takes over the size that a walk through the metadata found.
    pub fn fetch_real_size(&mut self, scan: SizeScan, now: u64)
        ensures
            final(self).db_size() == low64(sum(scan.sizes())),
            final(self).last_fetch() == now,
    {
        self.db_size = scan.total();
        self.last_fetch = now;
    }

    /// Counts an entry that is saved.
    pub fn save_entry(&mut self, entry: &ImageEntry)
        ensures
            final(self).db_size() == low64(old(self).db_size() + entry.bytes_len),
            final(self).last_fetch() == old(self).last_fetch(),
    {
        let ghost before = self.db_size;
        self.db_size = self.db_size.wrapping_add(entry.get_bytes_len());
        proof {
            vstd::arithmetic::div_mod::lemma_small_mod(before as nat, 0x1_0000_0000_0000_0000nat);
            lemma_low64_add(before as int, entry.bytes_len, self.db_size);
        }
    }

    /// Starts to evict the oldest entries of the database, whose size has just been found.
    pub fn evict_entries_fifo(&self, until_size: u64) -> (evictor: Evictor)
        ensures
            evictor.start() == self.db_size(),
            evictor.until() == until_size,
            evictor.dropped() == Seq::<Record>::empty(),
            evictor.queue() == Seq::<Record>::empty(),
            !evictor.exhausted(),
            evictor.oldest_went(),
    {
        Evictor::new(self.db_size, until_size)
    }

    /// Takes over the size that an eviction left.
    pub fn evicted(&mut self, size: u64)
        ensures
            final(self).db_size() == size,
            final(self).last_fetch() == old(self).last_fetch(),
    {
        self.db_size = size;
    }

    /// The size that is reported: none, if it had to be found anew and that failed.
    pub fn report(&self, refreshed: Result<(), ()>) -> (size: u64)
        ensures
            size == if refreshed is Ok {
                self.db_size()
            } else {
                0
            },
    {
        match refreshed {
            Ok(_) => self.db_size,
            Err(_) => 0,
        }
    }
}

/// Bytes in a mebibyte.
pub const MEBIBYTE: usize = 1024 * 1024;

/// Options of a table in the database.
pub struct BlockOptions {
    pub format_version: i32,
    /// Bits for each key in the bloom filter, if there is one. With one, index and filter blocks are
    /// cached, and pinned in the lowest level.
    pub bloom_bits: Option<u8>,
    /// Bytes of the block cache, if there is one.
    pub lru_bytes: Option<usize>,
}

/// The mebibytes of the block cache.
pub open spec fn lru_mebibytes(conf: RocksConfig) -> usize {
    match conf.lru_size {
        Some(size) => size,
        None => 64,
    }
}

/// The options of a table that the configuration asks for.
pub fn block_cf_opts(conf: &RocksConfig) -> (opts: BlockOptions)
    requires
        lru_mebibytes(*conf) * MEBIBYTE <= usize::MAX,
    ensures
        opts.format_version == 5,
        opts.bloom_bits == if conf.disable_bloom_filter {
            None::<u8>
        } else {
            Some(10u8)
        },
        opts.lru_bytes == if lru_mebibytes(*conf) > 0 {
            Some((lru_mebibytes(*conf) * MEBIBYTE) as usize)
        } else {
            None
        },
{
    let bloom_bits: Option<u8> = if conf.disable_bloom_filter {
        None
    } else {
        Some(10)
    };
    let lru: usize = conf.lru_size.unwrap_or(64);
    let lru_bytes: Option<usize> = if lru > 0 {
        Some(lru * MEBIBYTE)
    } else {
        None
    };
    BlockOptions { format_version: 5, bloom_bits, lru_bytes }
}

/// Options of the database.
pub struct DbOptions {
    pub keep_log_files: usize,
    pub parallelism: i32,
    pub background_jobs: i32,
    pub compaction_readahead_bytes: usize,
    pub level_compaction_bytes: usize,
    /// Bytes that may be written in a second, if that is limited.
    pub bytes_per_second: Option<i64>,
    pub write_buffer_bytes: usize,
}

/// The mebibytes of the write buffer.
pub open spec fn write_buffer_mebibytes(conf: RocksConfig) -> usize {
    match conf.write_buffer_size {
        Some(size) => size,
        None => 64,
    }
}

/// The options of the database that the configuration asks for.
pub fn db_opts(conf: &RocksConfig) -> (opts: DbOptions)
    requires
        write_buffer_mebibytes(*conf) * MEBIBYTE <= usize::MAX,
        conf.write_rate_limit matches Some(limit) ==> limit * MEBIBYTE <= usize::MAX,
    ensures
        opts.keep_log_files == 30,
        opts.parallelism == (match conf.parallelism {
            Some(n) => n,
            None => 2,
        }),
        opts.background_jobs == 6,
        opts.compaction_readahead_bytes == 8 * MEBIBYTE,
        opts.level_compaction_bytes == 512 * MEBIBYTE,
        opts.bytes_per_second == (match conf.write_rate_limit {
            Some(limit) => Some((limit * MEBIBYTE) as usize as i64),
            None => None,
        }),
        opts.write_buffer_bytes == write_buffer_mebibytes(*conf) * MEBIBYTE,
{
    let bytes_per_second: Option<i64> = match conf.write_rate_limit {
        Some(limit) => {
            let bytes: usize = limit * MEBIBYTE;
            Some(
                #[verifier::truncate]
                (bytes as i64),
            )
        },
        None => None,
    };
    DbOptions {
        keep_log_files: 30,
        parallelism: conf.parallelism.unwrap_or(2),
        background_jobs: 6,
        compaction_readahead_bytes: 8 * MEBIBYTE,
        level_compaction_bytes: 512 * MEBIBYTE,
        bytes_per_second,
        write_buffer_bytes: conf.write_buffer_size.unwrap_or(64) * MEBIBYTE,
    }
}

} // verus!
