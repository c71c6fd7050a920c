//! Laws of the life of the client: its rounds, the shrinking of its cache, its end, and its clocks.

use crate::lifecycle::{
    has_passed, rounded, share, try_shrink_db, Schedule, ShutdownWait, MAX_MULT, SHRINK_MULT,
};
use crate::outside::clock::{epoch_millis, micros_between};
use crate::run::{
    fits, in_rounds, leads_to, Phase, PingOutcome, RunAction, RunEvent, Runner,
};
use crate::utils::{clock_millis, now_as_millis, Secret, Timer};
use std::ops::Deref;
use std::time::{Instant, SystemTime};
use vstd::prelude::*;

verus! {

/// A client in its rounds ends only by being told to stop, or by a server that could not be started
/// again.
pub proof fn rounds_end_only_for_a_reason(
    before: Runner,
    event: RunEvent,
    now: u64,
    should_run: bool,
    after: Runner,
    action: RunAction,
)
    requires
        leads_to(before, event, now, should_run, after, action),
        before.phase() is Waiting || before.phase() is Pinging || before.phase() is Restarting
            || before.phase() is Shrinking,
    ensures
        in_rounds(before.phase()),
        action is Panic <==> event == RunEvent::Started(false),
        action is Panic ==> action == RunAction::Panic(
            "error creating HTTP server with a new certificate",
        ),
        action is Stop ==> !should_run && after.phase() is Stopping,
        action is Tick ==> should_run,
        !(action is Exit) && !(action is Start),
        action is Panic || action is Stop || in_rounds(after.phase()),
        action is Panic <==> after.phase() is Over,
{
}

/// The client waits for the outcome of what it does, and for nothing else; it is over exactly if it
/// exits or panics.
pub proof fn actions_await_their_outcome(
    before: Runner,
    event: RunEvent,
    now: u64,
    should_run: bool,
    after: Runner,
    action: RunAction,
    outcome: RunEvent,
)
    requires
        leads_to(before, event, now, should_run, after, action),
    ensures
        fits(after.phase(), outcome) == (match outcome {
            RunEvent::Pinged(_) => action is Ping,
            RunEvent::Started(_) => action is Start || action is Restart,
            RunEvent::Ticked => action is Tick,
            RunEvent::Shrunk => action is Shrink,
            RunEvent::Stopped => action is Stop,
        }),
        action is Exit || action is Panic <==> after.phase() is Over,
        action is Ping ==> after.phase() is Pinging && after.last_ping() == now,
        !(action is Ping) && !(before.phase() is Starting) ==> after.last_ping()
            == before.last_ping(),
        action is Shrink ==> after.last_shrink() == Some(now),
        !(action is Shrink) && !(before.phase() is Starting) ==> after.last_shrink()
            == before.last_shrink(),
        action is Start ==> after.phase() is Starting,
        action is Restart ==> after.phase() is Restarting,
        action is Exit <==> before.phase() is Stopping,
{
}

/// Where no ping is awaited in a round, the cache is attempted to be shrunk exactly if five minutes
/// have passed since the last attempt, or if there was none.
pub proof fn rounds_shrink_every_five_minutes(
    before: Runner,
    event: RunEvent,
    now: u64,
    should_run: bool,
    after: Runner,
    action: RunAction,
)
    requires
        leads_to(before, event, now, should_run, after, action),
        before.phase() is Waiting || before.phase() is Pinging || before.phase() is Restarting,
        !(action is Ping) && !(action is Restart) && !(action is Panic),
    ensures
        action is Shrink <==> (match before.last_shrink() {
            Some(last) => now >= last && now - last >= 300 * 1_000_000_000,
            None => true,
        }),
        !(action is Shrink) ==> (action is Tick) == should_run && (action is Stop) == !should_run,
{
}

/// A ping in a round that fails, or that brings no certificate, leads on with the round.
pub proof fn pings_without_a_certificate_are_passed_over(
    before: Runner,
    outcome: PingOutcome,
    now: u64,
    should_run: bool,
    after: Runner,
    action: RunAction,
)
    requires
        leads_to(before, RunEvent::Pinged(outcome), now, should_run, after, action),
        before.phase() is Pinging,
        outcome is Failed || outcome is NoCertificate,
    ensures
        action is Shrink || action is Tick || action is Stop,
        action is Tick ==> should_run,
        action is Stop ==> !should_run,
        in_rounds(after.phase()) == !(action is Stop),
        action is Shrink <==> (match before.last_shrink() {
            Some(last) => now >= last && now - last >= 300 * 1_000_000_000,
            None => true,
        }),
{
}

/// A client begins with a ping, and waits for its outcome and for nothing else.
pub proof fn a_client_begins_with_a_ping(
    runner: Runner,
    begun: RunAction,
    event: RunEvent,
    accepted: bool,
)
    requires
        call_ensures(Runner::new, (), (runner, begun)),
        call_ensures(Runner::accepts, (&runner, event), accepted),
    ensures
        begun is Ping,
        runner.phase() is FirstPing,
        accepted == (event is Pinged),
{
}

/// The first ping has to bring a certificate, with which the server is started; else the client ends.
/// A server that cannot be started ends it too, once it has shut down.
pub proof fn the_first_ping_brings_the_certificate(
    runner: Runner,
    begun: RunAction,
    outcome: PingOutcome,
    now: u64,
    should_run: bool,
    after: Runner,
    action: RunAction,
)
    requires
        call_ensures(Runner::new, (), (runner, begun)),
        leads_to(runner, RunEvent::Pinged(outcome), now, should_run, after, action),
    ensures
        begun is Ping,
        outcome is Certificate <==> action is Start,
        outcome is Failed ==> action == RunAction::Panic("error pinging backend on initial ping"),
        outcome is NoCertificate ==> action == RunAction::Panic(
            "TLS certificate wasn't provided in initial ping",
        ),
        action is Start ==> after.phase() is Starting,
        action is Panic ==> after.phase() is Over,
{
}

/// A server that was started begins the rounds, and the first round attempts to shrink the cache; one
/// that was not is followed by the shutdown and the end.
pub proof fn a_server_begins_the_rounds(
    before: Runner,
    ok: bool,
    now: u64,
    should_run: bool,
    after: Runner,
    action: RunAction,
    later: u64,
    still: bool,
    last: Runner,
    next: RunAction,
)
    requires
        before.phase() is Starting,
        leads_to(before, RunEvent::Started(ok), now, should_run, after, action),
        !ok ==> leads_to(after, RunEvent::Stopped, later, still, last, next),
        ok && should_run ==> leads_to(after, RunEvent::Ticked, later, still, last, next),
        now <= later,
        later - now < 60 * 1_000_000_000,
    ensures
        ok && should_run ==> action is Tick && next is Shrink,
        ok && !should_run ==> action is Stop,
        !ok ==> action is Stop && next == RunAction::Panic("error creating HTTP server"),
{
}

/// A tick leads to a ping exactly if a minute has passed since the last one.
pub proof fn ticks_ping_every_minute(
    before: Runner,
    now: u64,
    should_run: bool,
    after: Runner,
    action: RunAction,
)
    requires
        before.phase() is Waiting,
        leads_to(before, RunEvent::Ticked, now, should_run, after, action),
    ensures
        action is Ping <==> now >= before.last_ping() && now - before.last_ping() >= 60
            * 1_000_000_000,
        action is Ping ==> after.last_ping() == now && after.phase() is Pinging,
        !(action is Ping) ==> after.last_ping() == before.last_ping(),
        action is Ping || action is Shrink || action is Tick || action is Stop,
{
}

/// A new certificate in a round restarts the server; after that, and after the cache was attempted to
/// be shrunk, the rounds go on; a client that has shut down ends well.
pub proof fn rounds_go_on(
    before: Runner,
    event: RunEvent,
    now: u64,
    should_run: bool,
    after: Runner,
    action: RunAction,
)
    requires
        leads_to(before, event, now, should_run, after, action),
    ensures
        before.phase() is Pinging && event == RunEvent::Pinged(PingOutcome::Certificate) ==> action
            is Restart && after.phase() is Restarting,
        before.phase() is Restarting && event == RunEvent::Started(true) ==> action is Shrink
            || action is Tick || action is Stop,
        before.phase() is Shrinking ==> (action is Tick) == should_run && (action is Stop)
            == !should_run,
        before.phase() is Stopping ==> action is Exit && after.phase() is Over,
        before.phase() is GivingUp ==> action is Panic && after.phase() is Over,
        before.phase() !is Over,
        fits(before.phase(), event),
{
}

/// What the client does next is told by these laws: it takes the steps that they speak of.
pub proof fn the_runner_takes_such_steps(
    runner: &mut Runner,
    event: RunEvent,
    now: u64,
    should_run: bool,
    action: RunAction,
    accepted: bool,
)
    requires
        call_ensures(Runner::accepts, (&*old(runner), event), accepted),
        call_ensures(Runner::next, (runner, event, now, should_run), action),
    ensures
        accepted ==> leads_to(*old(runner), event, now, should_run, *final(runner), action),
        accepted == (match old(runner).phase() {
            Phase::FirstPing => event is Pinged,
            Phase::Pinging => event is Pinged,
            Phase::Starting => event is Started,
            Phase::Restarting => event is Started,
            Phase::Waiting => event is Ticked,
            Phase::Shrinking => event is Shrunk,
            Phase::Stopping => event is Stopped,
            Phase::GivingUp => event is Stopped,
            Phase::Over => false,
        }),
{
}

/// Pings are due a minute after the last one, attempts to shrink at once and then five minutes after
/// the last one. What is due counts as done, and nothing else changes.
pub proof fn work_is_due_in_time(
    start: u64,
    fresh: Schedule,
    schedule: &mut Schedule,
    now: u64,
    due: bool,
    other: &mut Schedule,
    shrink: bool,
)
    requires
        call_ensures(Schedule::new, (start,), fresh),
        call_ensures(Schedule::ping_due, (schedule, now), due),
        call_ensures(Schedule::shrink_due, (other, now), shrink),
    ensures
        fresh.last_ping() == start,
        fresh.last_shrink() is None,
        due == (now >= old(schedule).last_ping() && now - old(schedule).last_ping() >= 60
            * 1_000_000_000),
        final(schedule).last_ping() == if due {
            now
        } else {
            old(schedule).last_ping()
        },
        final(schedule).last_shrink() == old(schedule).last_shrink(),
        old(other).last_shrink() is None ==> shrink,
        old(other).last_shrink() matches Some(last) ==> shrink == (now >= last && now - last >= 300
            * 1_000_000_000),
        final(other).last_shrink() == if shrink {
            Some(now)
        } else {
            old(other).last_shrink()
        },
        final(other).last_ping() == old(other).last_ping(),
        has_passed(start, (start + 60 * 1_000_000_000) as u64, 60) || start + 60 * 1_000_000_000
            > u64::MAX,
{
}

/// The wait at the end lasts while requests keep coming and the grace period is not over. A grace
/// period of zero has no end, a negative one no beginning. Of the seconds that have passed, the low 32
/// bits count, as a signed number.
pub proof fn the_end_waits_for_requests(
    grace: i32,
    requests: usize,
    wait: &mut ShutdownWait,
    begins: bool,
    counted: usize,
    elapsed: u64,
    goes_on: bool,
    seconds: i32,
)
    requires
        call_ensures(ShutdownWait::new, (grace, requests), *old(wait)),
        call_ensures(ShutdownWait::begins, (&*old(wait),), begins),
        call_ensures(ShutdownWait::goes_on, (wait, counted, elapsed), goes_on),
        seconds as u32 == elapsed as u32,
    ensures
        elapsed <= i32::MAX ==> seconds == elapsed,
        begins == (grace >= 0),
        counted == requests ==> !goes_on,
        counted != requests && grace == 0 ==> goes_on,
        counted != requests && grace > 0 ==> goes_on == (seconds < grace),
        grace < 0 ==> !goes_on,
        final(wait).requests() == counted,
        final(wait).grace() == grace,
{
    assert(seconds == elapsed as i32) by (bit_vector)
        requires
            seconds as u32 == elapsed as u32,
    ;
    assert(elapsed <= 0x7fff_ffff ==> elapsed as i32 == elapsed) by (bit_vector);
}

/// A number rounded to double precision has at most 53 binary digits, is as near as can be, and is the
/// even one of two that are equally near. Numbers below two to the power of 53 stay as they are.
pub proof fn rounding_is_to_the_nearest_even(n: nat, unit: nat)
    requires
        unit == vstd::arithmetic::power2::pow2(crate::lifecycle::excess(n)),
    ensures
        n < 0x20_0000_0000_0000 ==> rounded(n) == n,
        unit > 0,
        n / unit < 0x20_0000_0000_0000,
        unit > 1 ==> n / unit >= 0x10_0000_0000_0000,
        rounded(n) % unit == 0,
        2 * (rounded(n) - n) <= unit,
        2 * (n - rounded(n)) <= unit,
        2 * (rounded(n) - n) == unit || 2 * (n - rounded(n)) == unit ==> (rounded(n) / unit) % 2
            == 0,
{
    crate::lifecycle::lemma_excess_leaves_enough(n);
    vstd::arithmetic::power2::lemma_pow2_pos(crate::lifecycle::excess(n));
    vstd::arithmetic::power2::lemma2_to64();
    let q = n / unit;
    let r = n % unit;
    assert(q * unit + r == n && (q + 1) * unit == q * unit + unit && 0 <= r < unit)
        by (nonlinear_arith)
        requires
            unit > 0,
            q == n / unit,
            r == n % unit,
    ;
    vstd::arithmetic::div_mod::lemma_mod_multiples_basic(q as int, unit as int);
    vstd::arithmetic::div_mod::lemma_mod_multiples_basic(q as int + 1, unit as int);
    vstd::arithmetic::div_mod::lemma_div_multiples_vanish(q as int, unit as int);
    vstd::arithmetic::div_mod::lemma_div_multiples_vanish(q as int + 1, unit as int);
    vstd::arithmetic::mul::lemma_mul_is_commutative(q as int, unit as int);
    vstd::arithmetic::mul::lemma_mul_is_commutative(q as int + 1, unit as int);
    if n < 0x20_0000_0000_0000 {
        assert(unit == 1);
        assert(n / 1 == n);
    }
}

/// The thresholds are 95 and 90 percent of the maximum size of the cache, up to two bytes: a cache that
/// is larger is shrunk, to 90 percent, and one that is not is left alone. They are the whole bytes of
/// the products in double precision.
pub proof fn caches_are_shrunk_from_95_to_90_percent(
    reported: u64,
    mebibytes: u32,
    target: Option<u64>,
)
    requires
        call_ensures(try_shrink_db, (reported, mebibytes), target),
    ensures
        100 * reported >= 95 * (mebibytes * 1048576) + 200 ==> target is Some,
        100 * reported <= 95 * (mebibytes * 1048576) - 200 ==> target is None,
        target matches Some(size) ==> 90 * (mebibytes * 1048576) - 200 <= 100 * size <= 90 * (
        mebibytes * 1048576) + 200,
        target is Some <==> rounded((mebibytes * 8556839292003942) as nat) < reported
            * 0x2_0000_0000,
        target matches Some(size) ==> size * 0x2_0000_0000 <= rounded(
            (mebibytes * 8106479329266893) as nat,
        ) < (size + 1) * 0x2_0000_0000,
{
    let high = (mebibytes * MAX_MULT) as nat;
    let low = (mebibytes * SHRINK_MULT) as nat;
    crate::lifecycle::lemma_rounded_is_near(high);
    crate::lifecycle::lemma_rounded_is_near(low);
    assert(high == mebibytes * 8556839292003942);
    assert(low == mebibytes * 8106479329266893);
    assert(share(mebibytes, MAX_MULT) == rounded(high) / 0x2_0000_0000);
    assert(share(mebibytes, SHRINK_MULT) == rounded(low) / 0x2_0000_0000);
    assert(share(mebibytes, SHRINK_MULT) <= u64::MAX);
}

/// The clock is read in milliseconds, and a clock before the epoch as zero.
pub proof fn clocks_are_read_in_milliseconds(reading: Option<u128>, millis: u64)
    requires
        call_ensures(clock_millis, (reading,), millis),
    ensures
        reading is None ==> millis == 0,
        reading matches Some(m) ==> m <= u64::MAX ==> millis == m,
        reading matches Some(m) ==> m >= millis && (m - millis) % 0x1_0000_0000_0000_0000 == 0,
{
    if let Some(m) = reading {
        if m <= u64::MAX {
            vstd::arithmetic::div_mod::lemma_small_mod(m as nat, 0x1_0000_0000_0000_0000nat);
        }
    }
}

/// The present is what the clock shows.
pub proof fn the_present_is_read_from_the_clock(millis: u64)
    requires
        call_ensures(now_as_millis, (), millis),
    ensures
        exists|reading: SystemTime|
            {
                &&& call_ensures(SystemTime::now, (), reading)
                &&& match #[trigger] epoch_millis(reading) {
                    Some(m) => m >= millis && (m - millis) % 0x1_0000_0000_0000_0000 == 0,
                    None => millis == 0,
                }
            },
{
    let reading = choose|reading: SystemTime|
        {
            &&& call_ensures(SystemTime::now, (), reading)
            &&& millis == crate::utils::millis_of(#[trigger] epoch_millis(reading))
        };
    assert(call_ensures(SystemTime::now, (), reading));
    assert(match epoch_millis(reading) {
        Some(m) => m >= millis && (m - millis) % 0x1_0000_0000_0000_0000 == 0,
        None => millis == 0,
    });
}

/// A timer measures from its start.
pub proof fn timers_measure_from_their_start(
    start: Instant,
    timer: Timer,
    now: Instant,
    micros: u128,
    begun: Timer,
    elapsed: u128,
)
    requires
        call_ensures(Timer::started_at, (start,), timer),
        call_ensures(Timer::micros_at, (&timer, now), micros),
        call_ensures(Timer::start, (), begun),
        call_ensures(Timer::elapsed_micros, (&timer,), elapsed),
    ensures
        micros == micros_between(start, now),
        exists|end: Instant|
            call_ensures(Instant::now, (), end) && elapsed == #[trigger] micros_between(start, end),
        call_ensures(Instant::now, (), begun.started()),
{
}

/// The debug text of a secret is the same for every secret, and the secret itself can still be had.
pub proof fn secrets_are_hidden<T>(secret: Secret<T>, shown: String, inner: &T)
    requires
        call_ensures(Secret::<T>::debug_text, (&secret,), shown),
        call_ensures(Secret::<T>::deref, (&secret,), inner),
    ensures
        shown@ == "Hidden"@,
        secret == Secret(*inner),
{
}

} // verus!
