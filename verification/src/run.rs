//! The course of the client from its first ping to its end.

use crate::lifecycle::{has_passed, Schedule, PING_SECONDS, SECOND, SHRINK_SECONDS};
use vstd::prelude::*;

verus! {

/// What the client is doing.
#[derive(Clone, Copy, PartialEq, Eq, Structural)]
pub enum Phase {
    /// It pings the backend for the first time.
    FirstPing,
    /// It starts the HTTP server.
    Starting,
    /// It waits for the next tick of the clock.
    Waiting,
    /// It pings the backend.
    Pinging,
    /// It restarts the HTTP server with a new certificate.
    Restarting,
    /// It attempts to shrink the cache.
    Shrinking,
    /// It shuts down.
    Stopping,
    /// It shuts down because there is no HTTP server.
    GivingUp,
    /// It has come to its end.
    Over,
}

/// How a ping turned out.
#[derive(Clone, Copy, PartialEq, Eq, Structural)]
pub enum PingOutcome {
    Failed,
    NoCertificate,
    Certificate,
}

/// What has happened.
#[derive(Clone, Copy, PartialEq, Eq, Structural)]
pub enum RunEvent {
    Pinged(PingOutcome),
    /// The server was started, if that succeeded.
    Started(bool),
    Ticked,
    Shrunk,
    Stopped,
}

/// What to do next.
pub enum RunAction {
    /// Ping the backend.
    Ping,
    /// Start the server with the certificate that the ping brought.
    Start,
    /// Stop the server, and start it with the certificate that the ping brought.
    Restart,
    /// Wait for the next tick of the clock.
    Tick,
    /// Attempt to shrink the cache.
    Shrink,
    /// Shut down.
    Stop,
    /// End well.
    Exit,
    /// End with this problem.
    Panic(&'static str),
}

/// The problem of a first ping that failed.
pub const FIRST_PING_FAILED: &'static str = "error pinging backend on initial ping";

/// The problem of a first ping that brought no certificate.
pub const NO_CERTIFICATE: &'static str = "TLS certificate wasn't provided in initial ping";

/// The problem of a server that could not be created.
pub const NO_SERVER: &'static str = "error creating HTTP server";

/// The problem of a server that could not be created again.
pub const NO_NEW_SERVER: &'static str = "error creating HTTP server with a new certificate";

/// The course of the client. Times are nanoseconds.
pub struct Runner {
    phase: Phase,
    schedule: Schedule,
}

/// An event is one that may happen in a phase.
pub open spec fn fits(phase: Phase, event: RunEvent) -> bool {
    match phase {
        Phase::FirstPing | Phase::Pinging => event is Pinged,
        Phase::Starting | Phase::Restarting => event is Started,
        Phase::Waiting => event is Ticked,
        Phase::Shrinking => event is Shrunk,
        Phase::Stopping | Phase::GivingUp => event is Stopped,
        Phase::Over => false,
    }
}

/// The last ping and the last attempt to shrink the cache are the same in both states.
pub open spec fn same_schedule(before: Runner, after: Runner) -> bool {
    after.last_ping() == before.last_ping() && after.last_shrink() == before.last_shrink()
}

/// A round begins, unless the client was told to stop.
pub open spec fn begins_round(should_run: bool, after: Runner, action: RunAction) -> bool {
    if should_run {
        after.phase() is Waiting && action is Tick
    } else {
        after.phase() is Stopping && action is Stop
    }
}

/// A round goes on after the ping, if any: with an attempt to shrink the cache, if it is time for one,
/// or to the next round.
pub open spec fn after_ping(
    before: Runner,
    now: u64,
    should_run: bool,
    after: Runner,
    action: RunAction,
) -> bool {
    &&& after.last_ping() == before.last_ping()
    &&& if before.shrink_is_due(now) {
        after.phase() is Shrinking && action is Shrink && after.last_shrink() == Some(now)
    } else {
        begins_round(should_run, after, action) && after.last_shrink() == before.last_shrink()
    }
}

/// `event` happens at the time `now` in the state `before`, and leads to the state `after` and to
/// `action`.
pub open spec fn leads_to(
    before: Runner,
    event: RunEvent,
    now: u64,
    should_run: bool,
    after: Runner,
    action: RunAction,
) -> bool {
    match (before.phase(), event) {
        (Phase::FirstPing, RunEvent::Pinged(outcome)) => same_schedule(before, after)
            && match outcome {
            PingOutcome::Failed => after.phase() is Over && action == RunAction::Panic(
                FIRST_PING_FAILED,
            ),
            PingOutcome::NoCertificate => after.phase() is Over && action == RunAction::Panic(
                NO_CERTIFICATE,
            ),
            PingOutcome::Certificate => after.phase() is Starting && action is Start,
        },
        (Phase::Starting, RunEvent::Started(ok)) => if ok {
            &&& after.last_ping() == now
            &&& after.last_shrink() is None
            &&& begins_round(should_run, after, action)
        } else {
            same_schedule(before, after) && after.phase() is GivingUp && action is Stop
        },
        (Phase::Waiting, RunEvent::Ticked) => if has_passed(before.last_ping(), now, PING_SECONDS) {
            &&& after.phase() is Pinging
            &&& action is Ping
            &&& after.last_ping() == now
            &&& after.last_shrink() == before.last_shrink()
        } else {
            after_ping(before, now, should_run, after, action)
        },
        (Phase::Pinging, RunEvent::Pinged(outcome)) => if outcome is Certificate {
            same_schedule(before, after) && after.phase() is Restarting && action is Restart
        } else {
            after_ping(before, now, should_run, after, action)
        },
        (Phase::Restarting, RunEvent::Started(ok)) => if ok {
            after_ping(before, now, should_run, after, action)
        } else {
            same_schedule(before, after) && after.phase() is Over && action == RunAction::Panic(
                NO_NEW_SERVER,
            )
        },
        (Phase::Shrinking, RunEvent::Shrunk) => same_schedule(before, after) && begins_round(
            should_run,
            after,
            action,
        ),
        (Phase::Stopping, RunEvent::Stopped) => same_schedule(before, after)
            && after.phase() is Over && action is Exit,
        (Phase::GivingUp, RunEvent::Stopped) => same_schedule(before, after)
            && after.phase() is Over && action == RunAction::Panic(NO_SERVER),
        _ => false,
    }
}

impl Runner {
    /// What the client is doing.
    pub closed spec fn phase(self) -> Phase {
        self.phase
    }

    /// When the backend was last pinged; when the server was started, if it was not pinged since.
    pub closed spec fn last_ping(self) -> u64 {
        self.schedule.last_ping()
    }

    /// When the cache was last attempted to be shrunk, if ever.
    pub closed spec fn last_shrink(self) -> Option<u64> {
        self.schedule.last_shrink()
    }

    /// It is time to attempt to shrink the cache.
    pub open spec fn shrink_is_due(self, now: u64) -> bool {
        match self.last_shrink() {
            Some(last) => has_passed(last, now, SHRINK_SECONDS),
            None => true,
        }
    }

    /// The client begins with its first ping.
    pub fn new() -> (r: (Self, RunAction))
        ensures
            r.0.phase() is FirstPing,
            r.1 is Ping,
    {
        (Runner { phase: Phase::FirstPing, schedule: Schedule::new(0) }, RunAction::Ping)
    }

    /// Whether an event is one that may happen now.
    pub fn accepts(&self, event: RunEvent) -> (accepted: bool)
        ensures
            accepted == fits(self.phase(), event),
    {
        match self.phase {
            Phase::FirstPing | Phase::Pinging => matches!(event, RunEvent::Pinged(_)),
            Phase::Starting | Phase::Restarting => matches!(event, RunEvent::Started(_)),
            Phase::Waiting => matches!(event, RunEvent::Ticked),
            Phase::Shrinking => matches!(event, RunEvent::Shrunk),
            Phase::Stopping | Phase::GivingUp => matches!(event, RunEvent::Stopped),
            Phase::Over => false,
        }
    }

    /// Begins a round, unless the client was told to stop.
    fn begin_round(&mut self, should_run: bool) -> (action: RunAction)
        ensures
            same_schedule(*old(self), *final(self)),
            begins_round(should_run, *final(self), action),
    {
        if should_run {
            self.phase = Phase::Waiting;
            RunAction::Tick
        } else {
            self.phase = Phase::Stopping;
            RunAction::Stop
        }
    }

    /// Goes on with a round after its ping, if any.
    fn go_on(&mut self, now: u64, should_run: bool) -> (action: RunAction)
        ensures
            after_ping(*old(self), now, should_run, *final(self), action),
    {
        if self.schedule.shrink_due(now) {
            self.phase = Phase::Shrinking;
            RunAction::Shrink
        } else {
            self.begin_round(should_run)
        }
    }

    /// What to do next, after an event that happened at the time `now`. `should_run` says whether the
    /// client was not told to stop until then.
    pub fn next(&mut self, event: RunEvent, now: u64, should_run: bool) -> (action: RunAction)
        requires
            fits(old(self).phase(), event),
        ensures
            leads_to(*old(self), event, now, should_run, *final(self), action),
    {
        match (self.phase, event) {
            (Phase::FirstPing, RunEvent::Pinged(PingOutcome::Failed)) => {
                self.phase = Phase::Over;
                RunAction::Panic(FIRST_PING_FAILED)
            },
            (Phase::FirstPing, RunEvent::Pinged(PingOutcome::NoCertificate)) => {
                self.phase = Phase::Over;
                RunAction::Panic(NO_CERTIFICATE)
            },
            (Phase::FirstPing, RunEvent::Pinged(PingOutcome::Certificate)) => {
                self.phase = Phase::Starting;
                RunAction::Start
            },
            (Phase::Starting, RunEvent::Started(true)) => {
                self.schedule = Schedule::new(now);
                self.begin_round(should_run)
            },
            (Phase::Starting, RunEvent::Started(false)) => {
                self.phase = Phase::GivingUp;
                RunAction::Stop
            },
            (Phase::Waiting, _) => {
                if self.schedule.ping_due(now) {
                    self.phase = Phase::Pinging;
                    RunAction::Ping
                } else {
                    self.go_on(now, should_run)
                }
            },
            (Phase::Pinging, RunEvent::Pinged(PingOutcome::Certificate)) => {
                self.phase = Phase::Restarting;
                RunAction::Restart
            },
            (Phase::Restarting, RunEvent::Started(false)) => {
                self.phase = Phase::Over;
                RunAction::Panic(NO_NEW_SERVER)
            },
            (Phase::Pinging, _) | (Phase::Restarting, _) => self.go_on(now, should_run),
            (Phase::Shrinking, _) => self.begin_round(should_run),
            (Phase::Stopping, _) => {
                self.phase = Phase::Over;
                RunAction::Exit
            },
            _ => {
                self.phase = Phase::Over;
                RunAction::Panic(NO_SERVER)
            },
        }
    }
}

/// One step of a run: the event, its time, whether the client was to run on, and the action.
pub struct RunStep {
    pub event: RunEvent,
    pub now: u64,
    pub should_run: bool,
    pub action: RunAction,
}

/// `states` are the states of a client from its first ping on, one more for each step, and time does
/// not go back.
pub open spec fn run(states: Seq<Runner>, steps: Seq<RunStep>) -> bool {
    &&& states.len() == steps.len() + 1
    &&& states[0].phase() is FirstPing
    &&& forall|i: int|
        0 <= i < steps.len() ==> leads_to(
            states[i],
            (#[trigger] steps[i]).event,
            steps[i].now,
            steps[i].should_run,
            states[i + 1],
            steps[i].action,
        )
    &&& forall|i: int, j: int| 0 <= i <= j < steps.len() ==> steps[i].now <= steps[j].now
}

/// The server was started and the client has not come to its end: the phases of a round.
pub open spec fn in_rounds(phase: Phase) -> bool {
    phase is Waiting || phase is Pinging || phase is Restarting || phase is Shrinking
}

/// What is done after the step `i` and before the state `j` was done at the times that the state `j`
/// knows, or before.
proof fn lemma_times(states: Seq<Runner>, steps: Seq<RunStep>, i: int, j: int)
    requires
        run(states, steps),
        0 <= i < j < states.len(),
    ensures
        in_rounds(states[i].phase()) ==> states[j].phase() !is Starting
            && states[j].phase() !is FirstPing,
        in_rounds(states[i].phase()) && steps[i].action is Ping ==> steps[i].now
            <= states[j].last_ping(),
        in_rounds(states[i].phase()) && steps[i].action is Shrink ==> (
        states[j].last_shrink() matches Some(last) && steps[i].now <= last),
    decreases j - i,
{
    assert(leads_to(
        states[j - 1],
        steps[j - 1].event,
        steps[j - 1].now,
        steps[j - 1].should_run,
        states[j],
        steps[j - 1].action,
    ));
    assert(steps[i].now <= steps[j - 1].now);
    if i < j - 1 {
        lemma_times(states, steps, i, j - 1);
    }
}

/// Both distances, from the two steps in question.
proof fn lemma_distances(states: Seq<Runner>, steps: Seq<RunStep>, i: int, j: int)
    requires
        run(states, steps),
        0 <= i < j < steps.len(),
    ensures
        steps[i].action is Ping && steps[j].action is Ping ==> steps[j].now - steps[i].now
            >= PING_SECONDS * SECOND,
        steps[i].action is Shrink && steps[j].action is Shrink ==> steps[j].now - steps[i].now
            >= SHRINK_SECONDS * SECOND,
{
    let (s, t) = (steps[i], steps[j]);
    assert(leads_to(states[i], s.event, s.now, s.should_run, states[i + 1], s.action));
    assert(leads_to(states[j], t.event, t.now, t.should_run, states[j + 1], t.action));
    lemma_times(states, steps, i, j);
}

/// Between two pings of a running client lies at least a minute.
pub proof fn pings_keep_their_distance(states: Seq<Runner>, steps: Seq<RunStep>, i: int, j: int)
    requires
        run(states, steps),
        0 <= i < j < steps.len(),
        steps[i].action is Ping,
        steps[j].action is Ping,
    ensures
        steps[j].now - steps[i].now >= PING_SECONDS * SECOND,
{
    lemma_distances(states, steps, i, j);
}

/// Between two attempts to shrink the cache lie at least five minutes.
pub proof fn shrinks_keep_their_distance(states: Seq<Runner>, steps: Seq<RunStep>, i: int, j: int)
    requires
        run(states, steps),
        0 <= i < j < steps.len(),
        steps[i].action is Shrink,
        steps[j].action is Shrink,
    ensures
        steps[j].now - steps[i].now >= SHRINK_SECONDS * SECOND,
{
    lemma_distances(states, steps, i, j);
}

/// A client that was told to stop begins no new round, and ends well only after it has shut down.
pub proof fn a_stop_is_heeded(
    before: Runner,
    event: RunEvent,
    now: u64,
    should_run: bool,
    after: Runner,
    action: RunAction,
)
    requires
        leads_to(before, event, now, should_run, after, action),
    ensures
        action is Tick ==> should_run,
        action is Exit ==> before.phase() is Stopping && event is Stopped,
        after.phase() is Stopping ==> action is Stop && !should_run,
{
}

/// A certificate that a ping brings goes to the server at once.
pub proof fn a_new_certificate_is_used(
    before: Runner,
    now: u64,
    should_run: bool,
    after: Runner,
    action: RunAction,
)
    requires
        leads_to(
            before,
            RunEvent::Pinged(PingOutcome::Certificate),
            now,
            should_run,
            after,
            action,
        ),
    ensures
        action is Start || action is Restart,
{
}

} // verus!
