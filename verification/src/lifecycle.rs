//! The life of the client: its periodic work, and its shutdown.

use crate::outside::sodium::{base64_decoded, KEY_SIZE};
use crate::tokens::{TokenError, TokenVerifier};
use vstd::arithmetic::div_mod::*;
use vstd::arithmetic::mul::*;
use vstd::arithmetic::power2::*;
use vstd::prelude::*;

verus! {

/// Nanoseconds in a second.
pub const SECOND: u64 = 1_000_000_000;

/// Seconds between pings.
pub const PING_SECONDS: u64 = 60;

/// Seconds between attempts to shrink the cache.
pub const SHRINK_SECONDS: u64 = 300;

/// Whether at least so many seconds have passed from `last` until `now`. A clock that stands before
/// `last` has seen none pass.
pub open spec fn has_passed(last: u64, now: u64, seconds: u64) -> bool {
    now >= last && now - last >= seconds * SECOND
}

/// When the periodic work was last done. Times are nanoseconds since the client started.
pub struct Schedule {
    last_ping: u64,
    last_shrink: Option<u64>,
}

impl Schedule {
    /// When the backend was last pinged.
    pub closed spec fn last_ping(self) -> u64 {
        self.last_ping
    }

    /// When the cache was last attempted to be shrunk, if ever.
    pub closed spec fn last_shrink(self) -> Option<u64> {
        self.last_shrink
    }

    /// The schedule after the first ping. The cache is attempted to be shrunk at once.
    pub fn new(now: u64) -> (schedule: Self)
        ensures
            schedule.last_ping() == now,
            schedule.last_shrink() is None,
    {
        Schedule { last_ping: now, last_shrink: None }
    }

    /// Whether it is time to ping the backend. If so, that counts as done now.
    pub fn ping_due(&mut self, now: u64) -> (due: bool)
        ensures
            due == has_passed(old(self).last_ping(), now, PING_SECONDS),
            final(self).last_ping() == if due {
                now
            } else {
                old(self).last_ping()
            },
            final(self).last_shrink() == old(self).last_shrink(),
    {
        let due: bool = now >= self.last_ping && now - self.last_ping >= PING_SECONDS * SECOND;
        if due {
            self.last_ping = now;
        }
        due
    }

    /// Whether it is time to attempt to shrink the cache. If so, that counts as done now.
    pub fn shrink_due(&mut self, now: u64) -> (due: bool)
        ensures
            due == (match old(self).last_shrink() {
                Some(last) => has_passed(last, now, SHRINK_SECONDS),
                None => true,
            }),
            final(self).last_shrink() == if due {
                Some(now)
            } else {
                old(self).last_shrink()
            },
            final(self).last_ping() == old(self).last_ping(),
    {
        let due: bool = match self.last_shrink {
            Some(last) => now >= last && now - last >= SHRINK_SECONDS * SECOND,
            None => true,
        };
        if due {
            self.last_shrink = Some(now);
        }
        due
    }
}

/// Hands the token key of a ping to the verifier, if the ping brought a new one.
pub fn ping_backend(verifier: &mut TokenVerifier, token_key: Option<&str>) -> (r: Result<
    (),
    TokenError,
>)
    ensures
        match token_key {
            None => r is Ok && *final(verifier) == *old(verifier),
            Some(text) => match base64_decoded(text@, false) {
                None => r == Err::<(), TokenError>(TokenError::InvalidBase64) && *final(verifier)
                    == *old(verifier),
                Some(bytes) => if bytes.len() == KEY_SIZE {
                    r is Ok && final(verifier).key() == Some(bytes)
                } else {
                    r == Err::<(), TokenError>(TokenError::KeyMalformed) && *final(verifier)
                        == *old(verifier)
                },
            },
        },
{
    match token_key {
        Some(text) => verifier.push_key_b64(text),
        None => Ok(()),
    }
}

/// The wait for the last requests when the client shuts down.
pub struct ShutdownWait {
    grace: i32,
    requests: usize,
}

impl ShutdownWait {
    /// The most seconds to wait; zero for no limit, negative for no wait.
    pub closed spec fn grace(self) -> i32 {
        self.grace
    }

    /// The requests that were counted last.
    pub closed spec fn requests(self) -> usize {
        self.requests
    }

    /// A wait that begins with so many requests counted.
    pub fn new(grace: i32, requests: usize) -> (wait: Self)
        ensures
            wait.grace() == grace,
            wait.requests() == requests,
    {
        ShutdownWait { grace, requests }
    }

    /// Whether to wait at all.
    pub fn begins(&self) -> (waits: bool)
        ensures
            waits == (self.grace() >= 0),
    {
        self.grace >= 0
    }

    /// Whether to go on waiting, after an interval at whose end so many requests are counted and so
    /// many seconds have passed since the wait began. It ends once an interval has seen no request,
    /// or the grace period is over.
    pub fn goes_on(&mut self, requests: usize, elapsed: u64) -> (waits: bool)
        ensures
            final(self).grace() == old(self).grace(),
            final(self).requests() == requests,
            waits == {
                &&& old(self).grace() >= 0
                &&& requests != old(self).requests()
                &&& old(self).grace() == 0 || (elapsed as i32) < old(self).grace()
            },
    {
        if requests == self.requests {
            return false;
        }
        self.requests = requests;
        let elapsed: i32 = #[verifier::truncate]
        (elapsed as i32);
        self.grace >= 0 && (self.grace == 0 || elapsed < self.grace)
    }
}

/// The significant binary digits of a number in double precision, as a bound: the least number that
/// has more.
pub const DOUBLE_LIMIT: u128 = 0x20_0000_0000_0000;

/// How many binary digits a number has too many for double precision.
pub open spec fn excess(n: nat) -> nat
    decreases n,
{
    if n < DOUBLE_LIMIT {
        0
    } else {
        1 + excess(n / 2)
    }
}

/// A number rounded to double precision: to the nearest number with few enough digits, and to the
/// even one of two that are equally near.
pub open spec fn rounded(n: nat) -> nat {
    let unit = pow2(excess(n));
    let q = n / unit;
    let r = n % unit;
    if 2 * r > unit || (2 * r == unit && q % 2 == 1) {
        (q + 1) * unit
    } else {
        q * unit
    }
}

/// The digits of 0.95 in double precision: the number is that many times 2 to the power of -53.
pub const MAX_MULT: u64 = 8556839292003942;

/// The digits of 0.9 in double precision: the number is that many times 2 to the power of -53.
pub const SHRINK_MULT: u64 = 8106479329266893;

/// The whole bytes in a share of so many mebibytes, where the share is `digits` times 2 to the power
/// of -53 and the product is taken in double precision.
pub open spec fn share(mebibytes: u32, digits: u64) -> nat {
    rounded((mebibytes * digits) as nat) / 0x2_0000_0000
}

proof fn lemma_excess_unfolds(n: nat, d: nat)
    requires
        n / pow2(d) >= DOUBLE_LIMIT,
    ensures
        excess(n / pow2(d)) == 1 + excess(n / pow2(d + 1)),
{
    lemma_pow2_pos(d);
    lemma_pow2_unfold(d + 1);
    lemma_div_denominator(n as int, pow2(d) as int, 2);
    assert(pow2(d) * 2 == pow2(d + 1)) by {
        lemma_mul_is_commutative(pow2(d) as int, 2);
    }
}

/// A number rounded to double precision.
fn round_double(n: u128) -> (r: u128)
    requires
        n < 0x20_0000_0000_0000_0000_0000,
    ensures
        r == rounded(n as nat),
        r <= 2 * n,
{
    let ghost mut d: nat = 0;
    let mut unit: u128 = 1;
    proof {
        lemma2_to64();
        assert(n as nat / pow2(0) == n);
    }
    while n / unit >= DOUBLE_LIMIT
        invariant
            n < 0x20_0000_0000_0000_0000_0000,
            unit > 0,
            unit == pow2(d),
            unit == 1 || unit <= n,
            excess(n as nat) == d + excess(n as nat / pow2(d)),
        decreases n / unit,
    {
        proof {
            lemma_excess_unfolds(n as nat, d);
            lemma_pow2_unfold(d + 1);
            assert(unit * 2 <= n) by (nonlinear_arith)
                requires
                    n / unit >= DOUBLE_LIMIT,
                    unit > 0,
            ;
            assert(n / ((unit * 2) as u128) < n / unit) by (nonlinear_arith)
                requires
                    n / unit >= DOUBLE_LIMIT,
                    unit > 0,
                    unit * 2 <= n,
            ;
            d = d + 1;
        }
        unit = unit * 2;
    }
    let q: u128 = n / unit;
    let r: u128 = n % unit;
    proof {
        assert(excess(n as nat) == d);
        assert(q * unit + r == n && q * unit <= n && (q + 1) * unit == q * unit + unit)
            by (nonlinear_arith)
            requires
                unit > 0,
                q == n / unit,
                r == n % unit,
        ;
    }
    if 2 * r > unit || (2 * r == unit && q % 2 == 1) {
        (q + 1) * unit
    } else {
        q * unit
    }
}

/// The whole bytes in a share of so many mebibytes.
fn share_of(mebibytes: u32, digits: u64) -> (bytes: u64)
    requires
        digits < DOUBLE_LIMIT,
    ensures
        bytes == share(mebibytes, digits),
{
    proof {
        assert(mebibytes * digits < 0x20_0000_0000_0000_0000_0000) by (nonlinear_arith)
            requires
                mebibytes <= u32::MAX,
                digits < 0x20_0000_0000_0000,
        ;
    }
    let product: u128 = mebibytes as u128 * digits as u128;
    (round_double(product) / 0x2_0000_0000) as u64
}

/// The size that the cache is to be shrunk to, if it has to be: it is over 95 percent of its
/// maximum, and is shrunk to 90 percent.
pub open spec fn shrink_target(reported: u64, mebibytes: u32) -> Option<u64> {
    if reported > share(mebibytes, MAX_MULT) {
        Some(share(mebibytes, SHRINK_MULT) as u64)
    } else {
        None
    }
}

/// The size that the cache is to be shrunk to, if it has to be, from the size that it reports and its
/// maximum in mebibytes.
pub fn try_shrink_db(reported: u64, mebibytes: u32) -> (target: Option<u64>)
    ensures
        target == shrink_target(reported, mebibytes),
{
    if reported > share_of(mebibytes, MAX_MULT) {
        Some(share_of(mebibytes, SHRINK_MULT))
    } else {
        None
    }
}

/// Without the digits that are too many, a number has as many as double precision holds.
pub proof fn lemma_excess_leaves_enough(n: nat)
    ensures
        n / pow2(excess(n)) < DOUBLE_LIMIT,
        excess(n) > 0 ==> n / pow2(excess(n)) >= DOUBLE_LIMIT / 2,
    decreases n,
{
    let d = excess(n);
    lemma2_to64();
    if n >= DOUBLE_LIMIT {
        lemma_excess_leaves_enough(n / 2);
        let e = excess(n / 2);
        lemma_pow2_pos(e);
        lemma_pow2_unfold(d);
        lemma_div_denominator(n as int, 2, pow2(e) as int);
        assert((n / 2) / pow2(e) == n / pow2(d));
    } else {
        assert(n / pow2(0) == n);
    }
}

/// Rounding to double precision is off by at most half of the last digit.
pub proof fn lemma_rounded_is_near(n: nat)
    ensures
        (rounded(n) - n) * DOUBLE_LIMIT <= n,
        (n - rounded(n)) * DOUBLE_LIMIT <= n,
{
    lemma_excess_leaves_enough(n);
    let unit = pow2(excess(n));
    lemma_pow2_pos(excess(n));
    let q = n / unit;
    let r = n % unit;
    assert(q * unit + r == n && (q + 1) * unit == q * unit + unit && 0 <= r < unit)
        by (nonlinear_arith)
        requires
            unit > 0,
            q == n / unit,
            r == n % unit,
    ;
    if excess(n) == 0 {
        lemma2_to64();
        assert(unit == 1);
    } else {
        assert(unit * 0x10_0000_0000_0000 <= n) by (nonlinear_arith)
            requires
                unit > 0,
                q == n / unit,
                q >= 0x10_0000_0000_0000,
        ;
        assert(2 * (rounded(n) - n) <= unit);
        assert(2 * (n - rounded(n)) <= unit);
    }
}

/// Shrinking settles: the size that the cache is shrunk to is not over the size from which it is
/// shrunk, so a cache that was shrunk far enough is left alone.
pub proof fn shrinking_settles(reported: u64, mebibytes: u32, size: u64)
    requires
        shrink_target(reported, mebibytes) matches Some(target) && size <= target,
    ensures
        shrink_target(size, mebibytes) is None,
{
    let high = (mebibytes * MAX_MULT) as nat;
    let low = (mebibytes * SHRINK_MULT) as nat;
    lemma_rounded_is_near(high);
    lemma_rounded_is_near(low);
    assert(rounded(low) <= rounded(high));
    assert(rounded(low) / 0x2_0000_0000 <= rounded(high) / 0x2_0000_0000);
    assert(rounded(low) / 0x2_0000_0000 <= u64::MAX);
}

} // verus!
