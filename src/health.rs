//! Decisions of the health poller: probe the backend endpoint until a connection
//! succeeds or the deadline passes. Time is read by the caller, in milliseconds
//! of a monotonic clock, and handed in.
use vstd::prelude::*;

verus! {

/// Pause between two failed connection attempts.
pub const POLL_INTERVAL_MS: u64 = 500;

/// How long the backend is given to accept connections after it was started.
pub const HEALTH_TIMEOUT_SECS: u64 = 30;

/// What the poller does next.
#[derive(Clone, Copy, Debug, PartialEq, Eq, Structural)]
pub enum PollAction {
    /// Try to open a TCP connection to the endpoint.
    Probe,
    /// Sleep, then ask again.
    Sleep { millis: u64 },
    /// The poll is over, with this outcome.
    Finish { healthy: bool },
}

/// The deadline `timeout_secs` seconds after `start_ms`, capped at the largest time.
pub open spec fn deadline_spec(start_ms: u64, timeout_secs: u64) -> u64 {
    if start_ms + timeout_secs * 1000 > u64::MAX {
        u64::MAX
    } else {
        (start_ms + timeout_secs * 1000) as u64
    }
}

/// The outcome that a record of connection attempts (the time at which each
/// began and whether it connected) leads to: the first attempt that began at or
/// after the deadline ends the poll as unhealthy, the first that connected
/// before it ends the poll as healthy; without either the poll is still running.
pub open spec fn outcome_of(deadline: u64, trace: Seq<(u64, bool)>) -> Option<bool>
    decreases trace.len(),
{
    if trace.len() == 0 {
        None
    } else if trace[0].0 >= deadline {
        Some(false)
    } else if trace[0].1 {
        Some(true)
    } else {
        outcome_of(deadline, trace.drop_first())
    }
}

/// The times of a record never go back.
pub open spec fn monotone(trace: Seq<(u64, bool)>) -> bool {
    forall|i: int, j: int| 0 <= i <= j < trace.len() ==> trace[i].0 <= trace[j].0
}

/// What a single attempt decides by itself.
pub open spec fn attempt_outcome(deadline: u64, at: u64, connected: bool) -> Option<bool> {
    if at >= deadline {
        Some(false)
    } else if connected {
        Some(true)
    } else {
        None
    }
}

/// An attempt added to a record changes nothing once the outcome is known, and
/// else decides as it would alone.
pub proof fn lemma_outcome_push(deadline: u64, trace: Seq<(u64, bool)>, a: (u64, bool))
    ensures
        outcome_of(deadline, trace.push(a)) == (match outcome_of(deadline, trace) {
            Some(b) => Some(b),
            None => attempt_outcome(deadline, a.0, a.1),
        }),
    decreases trace.len(),
{
    if trace.len() == 0 {
        assert(trace.push(a)[0] == a);
        assert(trace.push(a).drop_first().len() == 0);
        assert(outcome_of(deadline, trace.push(a).drop_first()) is None);
    } else {
        assert(trace.push(a)[0] == trace[0]);
        assert(trace.push(a).drop_first() =~= trace.drop_first().push(a));
        lemma_outcome_push(deadline, trace.drop_first(), a);
    }
}

/// On a record whose times never go back, the poll is healthy exactly when some
/// attempt that began strictly before the deadline connected.
pub proof fn lemma_healthy_iff_connected_before_deadline(deadline: u64, trace: Seq<(u64, bool)>)
    requires
        monotone(trace),
    ensures
        outcome_of(deadline, trace) == Some(true) <==> exists|i: int|
            0 <= i < trace.len() && trace[i].0 < deadline && #[trigger] trace[i].1,
    decreases trace.len(),
{
    if trace.len() > 0 {
        let rest = trace.drop_first();
        assert(monotone(rest)) by {
            assert forall|i: int, j: int| 0 <= i <= j < rest.len() implies rest[i].0 <= rest[j].0 by {
                assert(rest[i] == trace[i + 1] && rest[j] == trace[j + 1]);
            }
        }
        lemma_healthy_iff_connected_before_deadline(deadline, rest);
        if trace[0].0 >= deadline {
            assert forall|i: int| 0 <= i < trace.len() implies !(trace[i].0 < deadline && #[trigger] trace[i].1) by {
                assert(trace[0].0 <= trace[i].0);
            }
        } else if trace[0].1 {
        } else {
            if exists|i: int| 0 <= i < trace.len() && trace[i].0 < deadline && #[trigger] trace[i].1 {
                let i = choose|i: int| 0 <= i < trace.len() && trace[i].0 < deadline && #[trigger] trace[i].1;
                assert(rest[i - 1] == trace[i]);
            }
            if exists|i: int| 0 <= i < rest.len() && rest[i].0 < deadline && #[trigger] rest[i].1 {
                let i = choose|i: int| 0 <= i < rest.len() && rest[i].0 < deadline && #[trigger] rest[i].1;
                assert(rest[i] == trace[i + 1]);
            }
        }
    }
}

/// Once an attempt begins at or after the deadline, the poll is over.
pub proof fn lemma_deadline_ends_poll(deadline: u64, trace: Seq<(u64, bool)>, i: int)
    requires
        0 <= i < trace.len(),
        trace[i].0 >= deadline,
    ensures
        outcome_of(deadline, trace) is Some,
    decreases trace.len(),
{
    if i > 0 && trace[0].0 < deadline && !trace[0].1 {
        assert(trace.drop_first()[i - 1] == trace[i]);
        lemma_deadline_ends_poll(deadline, trace.drop_first(), i - 1);
    }
}

/// The deadline `timeout_secs` seconds after `start_ms`.
pub fn deadline_after(start_ms: u64, timeout_secs: u64) -> (r: u64)
    ensures
        r == deadline_spec(start_ms, timeout_secs),
{
    if timeout_secs > (u64::MAX - start_ms) / 1000 {
        assert(timeout_secs * 1000 > u64::MAX - start_ms) by (nonlinear_arith)
            requires timeout_secs > (u64::MAX - start_ms) / 1000;
        u64::MAX
    } else {
        assert(timeout_secs * 1000 <= u64::MAX - start_ms) by (nonlinear_arith)
            requires timeout_secs <= (u64::MAX - start_ms) / 1000;
        start_ms + timeout_secs * 1000
    }
}

/// The model of a health poll: its deadline, the attempts made so far and the
/// outcome, once known.
pub struct PollView {
    pub deadline_ms: u64,
    pub trace: Seq<(u64, bool)>,
    pub outcome: Option<bool>,
}

/// A health poll in progress.
pub struct HealthPoll {
    deadline_ms: u64,
    outcome: Option<bool>,
    trace: Ghost<Seq<(u64, bool)>>,
}

impl View for HealthPoll {
    type V = PollView;

    closed spec fn view(&self) -> PollView {
        PollView { deadline_ms: self.deadline_ms, trace: self.trace@, outcome: self.outcome }
    }
}

impl HealthPoll {
    #[verifier::type_invariant]
    spec fn inv(&self) -> bool {
        self.outcome == outcome_of(self.deadline_ms, self.trace@)
    }

    /// A poll started at `start_ms` that gives up after `timeout_secs` seconds.
    pub fn new(start_ms: u64, timeout_secs: u64) -> (r: HealthPoll)
        ensures
            r@.deadline_ms == deadline_spec(start_ms, timeout_secs),
            r@.trace == Seq::<(u64, bool)>::empty(),
            r@.outcome == None::<bool>,
    {
        HealthPoll {
            deadline_ms: deadline_after(start_ms, timeout_secs),
            outcome: None,
            trace: Ghost(Seq::empty()),
        }
    }

    /// The deadline of the poll.
    pub fn deadline_ms(&self) -> (r: u64)
        ensures
            r == self@.deadline_ms,
    {
        self.deadline_ms
    }

    /// The outcome, once the poll is over.
    pub fn outcome(&self) -> (r: Option<bool>)
        ensures
            r == self@.outcome,
            r == outcome_of(self@.deadline_ms, self@.trace),
    {
        proof {
            use_type_invariant(self);
        }
        self.outcome
    }

    /// Decides, at `now_ms`, whether to attempt a connection. A poll whose deadline
    /// has been reached ends as unhealthy; no attempt begins at or past it.
    pub fn before_attempt(&mut self, now_ms: u64) -> (r: PollAction)
        ensures
            final(self)@.deadline_ms == old(self)@.deadline_ms,
            final(self)@.outcome == outcome_of(final(self)@.deadline_ms, final(self)@.trace),
            old(self)@.outcome matches Some(b) ==> r == (PollAction::Finish { healthy: b })
                && final(self)@ == old(self)@,
            old(self)@.outcome is None && now_ms >= old(self)@.deadline_ms ==> r == (PollAction::Finish { healthy: false })
                && final(self)@.trace == old(self)@.trace.push((now_ms, false)),
            old(self)@.outcome is None && now_ms < old(self)@.deadline_ms ==> r == PollAction::Probe
                && final(self)@ == old(self)@,
    {
        proof {
            use_type_invariant(&*self);
        }
        match self.outcome {
            Some(b) => PollAction::Finish { healthy: b },
            None => {
                if now_ms >= self.deadline_ms {
                    proof {
                        lemma_outcome_push(self.deadline_ms, self.trace@, (now_ms, false));
                    }
                    *self = HealthPoll {
                        deadline_ms: self.deadline_ms,
                        outcome: Some(false),
                        trace: Ghost(self.trace@.push((now_ms, false))),
                    };
                    PollAction::Finish { healthy: false }
                } else {
                    PollAction::Probe
                }
            },
        }
    }

    /// Records an attempt that began at `started_ms` and whether it connected:
    /// a connection ends the poll as healthy, an attempt that began at or past the
    /// deadline ends it as unhealthy, and otherwise the poller sleeps for the
    /// polling interval.
    pub fn after_attempt(&mut self, started_ms: u64, connected: bool) -> (r: PollAction)
        ensures
            final(self)@.deadline_ms == old(self)@.deadline_ms,
            final(self)@.outcome == outcome_of(final(self)@.deadline_ms, final(self)@.trace),
            old(self)@.outcome matches Some(b) ==> r == (PollAction::Finish { healthy: b })
                && final(self)@ == old(self)@,
            old(self)@.outcome is None ==> final(self)@.trace == old(self)@.trace.push((started_ms, connected))
                && final(self)@.outcome == attempt_outcome(old(self)@.deadline_ms, started_ms, connected)
                && r == (match final(self)@.outcome {
                    Some(b) => PollAction::Finish { healthy: b },
                    None => PollAction::Sleep { millis: POLL_INTERVAL_MS },
                }),
    {
        proof {
            use_type_invariant(&*self);
        }
        match self.outcome {
            Some(b) => PollAction::Finish { healthy: b },
            None => {
                proof {
                    lemma_outcome_push(self.deadline_ms, self.trace@, (started_ms, connected));
                }
                let outcome = if started_ms >= self.deadline_ms {
                    Some(false)
                } else if connected {
                    Some(true)
                } else {
                    None
                };
                *self = HealthPoll {
                    deadline_ms: self.deadline_ms,
                    outcome,
                    trace: Ghost(self.trace@.push((started_ms, connected))),
                };
                match outcome {
                    Some(b) => PollAction::Finish { healthy: b },
                    None => PollAction::Sleep { millis: POLL_INTERVAL_MS },
                }
            },
        }
    }
}

/// The address of the backend's health endpoint.
pub fn health_endpoint() -> (r: String)
    ensures
        r@ == "127.0.0.1:8008"@,
{
    "127.0.0.1:8008".to_owned()
}

} // verus!
