//! Sizes of databases, in counters of 64 bits.

use vstd::prelude::*;

verus! {

/// The low 64 bits of a number: what a counter of 64 bits makes of it.
pub open spec fn low64(n: int) -> int {
    n % 0x1_0000_0000_0000_0000
}

/// The sum of sizes.
pub open spec fn sum(sizes: Seq<u64>) -> int
    decreases sizes.len(),
{
    if sizes.len() == 0 {
        0
    } else {
        sum(sizes.drop_last()) + sizes.last()
    }
}

/// A counter that wraps around keeps the low bits of a sum.
pub proof fn lemma_low64_add(a: int, b: u64, sum: u64)
    requires
        sum == (low64(a) as u64).wrapping_add(b),
    ensures
        sum == low64(a + b),
{
    let m: int = 0x1_0000_0000_0000_0000;
    vstd::arithmetic::div_mod::lemma_add_mod_noop(a, b as int, m);
    vstd::arithmetic::div_mod::lemma_small_mod(b as nat, m as nat);
    let x = a % m + b;
    if x >= m {
        vstd::arithmetic::div_mod::lemma_mod_sub_multiples_vanish(x, m);
        vstd::arithmetic::div_mod::lemma_small_mod((x - m) as nat, m as nat);
    } else {
        vstd::arithmetic::div_mod::lemma_small_mod(x as nat, m as nat);
    }
}

/// A counter that wraps around keeps the low bits of a difference.
pub proof fn lemma_low64_sub(a: int, b: u64, difference: u64)
    requires
        difference == (low64(a) as u64).wrapping_sub(b),
    ensures
        difference == low64(a - b),
{
    let m: int = 0x1_0000_0000_0000_0000;
    vstd::arithmetic::div_mod::lemma_sub_mod_noop(a, b as int, m);
    vstd::arithmetic::div_mod::lemma_small_mod(b as nat, m as nat);
    let x = a % m - b;
    if x < 0 {
        vstd::arithmetic::div_mod::lemma_mod_add_multiples_vanish(x, m);
        vstd::arithmetic::div_mod::lemma_small_mod((x + m) as nat, m as nat);
    } else {
        vstd::arithmetic::div_mod::lemma_small_mod(x as nat, m as nat);
    }
}

/// Adds up sizes as they are met in a walk through a database.
pub struct SizeScan {
    total: u64,
    sizes: Ghost<Seq<u64>>,
}

impl SizeScan {
    /// The sizes that were counted.
    pub closed spec fn sizes(self) -> Seq<u64> {
        self.sizes@
    }

    #[verifier::type_invariant]
    spec fn inv(self) -> bool {
        self.total == low64(sum(self.sizes@))
    }

    /// Nothing counted yet.
    pub fn new() -> (scan: Self)
        ensures
            scan.sizes() == Seq::<u64>::empty(),
    {
        SizeScan { total: 0, sizes: Ghost(Seq::empty()) }
    }

    /// Counts one more size.
    pub fn count(self, size: u64) -> (scan: Self)
        ensures
            scan.sizes() == self.sizes().push(size),
    {
        proof {
            use_type_invariant(&self);
        }
        let total: u64 = self.total.wrapping_add(size);
        let ghost sizes = self.sizes@.push(size);
        proof {
            assert(sizes.drop_last() =~= self.sizes@);
            lemma_low64_add(sum(self.sizes@), size, total);
        }
        SizeScan { total, sizes: Ghost(sizes) }
    }

    /// The sum of the sizes.
    pub fn total(&self) -> (total: u64)
        ensures
            total == low64(sum(self.sizes())),
    {
        proof {
            use_type_invariant(self);
        }
        self.total
    }
}

/// Sizes that fit the counter together are added up exactly.
pub proof fn small_sums_are_exact(sizes: Seq<u64>)
    requires
        sum(sizes) <= u64::MAX,
    ensures
        low64(sum(sizes)) == sum(sizes),
{
    lemma_sum_is_not_negative(sizes);
    vstd::arithmetic::div_mod::lemma_small_mod(sum(sizes) as nat, 0x1_0000_0000_0000_0000nat);
}

/// Sums of sizes are not negative.
pub proof fn lemma_sum_is_not_negative(sizes: Seq<u64>)
    ensures
        sum(sizes) >= 0,
    decreases sizes.len(),
{
    if sizes.len() > 0 {
        lemma_sum_is_not_negative(sizes.drop_last());
    }
}

} // verus!
