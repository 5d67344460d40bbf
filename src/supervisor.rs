//! The supervisor's lifecycle state: the single slot for the backend process
//! handle, the status tag, and the one-shot readiness notification.
use vstd::prelude::*;

verus! {

/// Lifecycle of the supervised backend.
#[derive(Clone, Copy, Debug, PartialEq, Eq, Structural)]
pub enum Status {
    NotStarted,
    Starting,
    Healthy,
    Unhealthy,
    Terminated,
}

/// The model of a supervisor: its status, the handle it holds, and whether the
/// readiness notification has been issued.
pub struct SupervisorView<H> {
    pub status: Status,
    pub handle: Option<H>,
    pub notified: bool,
}

/// A handle is only held while the backend is starting or running.
pub open spec fn valid<H>(s: SupervisorView<H>) -> bool {
    s.handle is Some ==> (s.status == Status::Starting || s.status == Status::Healthy
        || s.status == Status::Unhealthy)
}

/// The state in which every application run begins.
pub open spec fn fresh<H>() -> SupervisorView<H> {
    SupervisorView { status: Status::NotStarted, handle: None, notified: false }
}

/// A start is accepted only once, from the initial status with an empty slot.
pub open spec fn start_accepted<H>(s: SupervisorView<H>) -> bool {
    s.status == Status::NotStarted && s.handle is None
}

pub open spec fn after_begin_start<H>(s: SupervisorView<H>) -> SupervisorView<H> {
    if start_accepted(s) {
        SupervisorView { status: Status::Starting, ..s }
    } else {
        s
    }
}

/// A handle is stored only while starting, into an empty slot.
pub open spec fn store_accepted<H>(s: SupervisorView<H>) -> bool {
    s.status == Status::Starting && s.handle is None
}

pub open spec fn after_store<H>(s: SupervisorView<H>, h: H) -> SupervisorView<H> {
    if store_accepted(s) {
        SupervisorView { handle: Some(h), ..s }
    } else {
        s
    }
}

/// The status that a health outcome leads to.
pub open spec fn status_after_health(status: Status, healthy: bool) -> Status {
    if status == Status::Starting {
        if healthy {
            Status::Healthy
        } else {
            Status::Unhealthy
        }
    } else {
        status
    }
}

/// The first health outcome is published and recorded; later ones are dropped.
pub open spec fn after_health<H>(s: SupervisorView<H>, healthy: bool) -> SupervisorView<H> {
    if s.notified {
        s
    } else {
        SupervisorView { status: status_after_health(s.status, healthy), notified: true, ..s }
    }
}

pub open spec fn after_shutdown<H>(s: SupervisorView<H>) -> SupervisorView<H> {
    SupervisorView { status: Status::Terminated, handle: None, ..s }
}

/// A request made of the supervisor.
pub enum SupervisorOp<H> {
    BeginStart,
    Store(H),
    ReportHealth(bool),
    Shutdown,
}

pub open spec fn step<H>(s: SupervisorView<H>, op: SupervisorOp<H>) -> SupervisorView<H> {
    match op {
        SupervisorOp::BeginStart => after_begin_start(s),
        SupervisorOp::Store(h) => after_store(s, h),
        SupervisorOp::ReportHealth(b) => after_health(s, b),
        SupervisorOp::Shutdown => after_shutdown(s),
    }
}

/// How many of the requests `ops`, made in turn from `s`, were accepted starts.
pub open spec fn accepted_starts<H>(s: SupervisorView<H>, ops: Seq<SupervisorOp<H>>) -> nat
    decreases ops.len(),
{
    if ops.len() == 0 {
        0
    } else {
        let here: nat = if ops[0] is BeginStart && start_accepted(s) { 1 } else { 0 };
        here + accepted_starts(step(s, ops[0]), ops.drop_first())
    }
}

/// How many of the requests `ops`, made in turn from `s`, stored a handle.
pub open spec fn accepted_stores<H>(s: SupervisorView<H>, ops: Seq<SupervisorOp<H>>) -> nat
    decreases ops.len(),
{
    if ops.len() == 0 {
        0
    } else {
        let here: nat = if ops[0] is Store && store_accepted(s) { 1 } else { 0 };
        here + accepted_stores(step(s, ops[0]), ops.drop_first())
    }
}

/// How many readiness notifications the requests `ops`, made in turn from `s`, issue.
pub open spec fn emissions<H>(s: SupervisorView<H>, ops: Seq<SupervisorOp<H>>) -> nat
    decreases ops.len(),
{
    if ops.len() == 0 {
        0
    } else {
        let here: nat = if ops[0] is ReportHealth && !s.notified { 1 } else { 0 };
        here + emissions(step(s, ops[0]), ops.drop_first())
    }
}

/// Whether some request of `ops` reports a health outcome.
pub open spec fn has_report<H>(ops: Seq<SupervisorOp<H>>) -> bool {
    exists|i: int| 0 <= i < ops.len() && #[trigger] ops[i] is ReportHealth
}

/// Whether a start could still be accepted later.
pub open spec fn may_start<H>(s: SupervisorView<H>) -> bool {
    s.status == Status::NotStarted
}

/// Whether a handle could still be stored later.
pub open spec fn may_store<H>(s: SupervisorView<H>) -> bool {
    (s.status == Status::NotStarted || s.status == Status::Starting) && s.handle is None
}

proof fn lemma_counts_bounded<H>(s: SupervisorView<H>, ops: Seq<SupervisorOp<H>>)
    requires
        valid(s),
    ensures
        accepted_starts(s, ops) <= (if may_start(s) { 1nat } else { 0nat }),
        accepted_stores(s, ops) <= (if may_store(s) { 1nat } else { 0nat }),
    decreases ops.len(),
{
    if ops.len() > 0 {
        let next = step(s, ops[0]);
        lemma_counts_bounded(next, ops.drop_first());
    }
}

/// Over any sequence of requests in one run, at most one start is accepted and
/// at most one process handle is ever stored.
pub proof fn lemma_single_handle<H>(ops: Seq<SupervisorOp<H>>)
    ensures
        accepted_starts(fresh::<H>(), ops) <= 1,
        accepted_stores(fresh::<H>(), ops) <= 1,
{
    lemma_counts_bounded(fresh::<H>(), ops);
}

/// Every request keeps the supervisor's state valid.
pub proof fn lemma_step_valid<H>(s: SupervisorView<H>, op: SupervisorOp<H>)
    requires
        valid(s),
    ensures
        valid(step(s, op)),
{
}

/// The readiness notification is issued exactly once in a run that reports a
/// health outcome, whether healthy or not, and never in one that does not.
pub proof fn lemma_notified_once<H>(s: SupervisorView<H>, ops: Seq<SupervisorOp<H>>)
    ensures
        emissions(s, ops) == (if !s.notified && has_report(ops) { 1nat } else { 0nat }),
    decreases ops.len(),
{
    if ops.len() > 0 {
        let rest = ops.drop_first();
        lemma_notified_once(step(s, ops[0]), rest);
        if has_report(rest) {
            let i = choose|i: int| 0 <= i < rest.len() && #[trigger] rest[i] is ReportHealth;
            assert(ops[i + 1] == rest[i]);
        }
        if has_report(ops) && !(ops[0] is ReportHealth) {
            let i = choose|i: int| 0 <= i < ops.len() && #[trigger] ops[i] is ReportHealth;
            assert(rest[i - 1] == ops[i]);
        }
    }
}

/// Owner of the backend process handle, of type `H`, for the application's lifetime.
pub struct Supervisor<H> {
    status: Status,
    slot: Option<H>,
    notified: bool,
}

impl<H> View for Supervisor<H> {
    type V = SupervisorView<H>;

    closed spec fn view(&self) -> SupervisorView<H> {
        SupervisorView { status: self.status, handle: self.slot, notified: self.notified }
    }
}

impl<H> Supervisor<H> {
    #[verifier::type_invariant]
    spec fn inv(&self) -> bool {
        valid(self@)
    }

    /// A supervisor that has not started anything.
    pub fn new() -> (r: Supervisor<H>)
        ensures
            r@ == fresh::<H>(),
    {
        Supervisor { status: Status::NotStarted, slot: None, notified: false }
    }

    /// The current lifecycle status.
    pub fn current_status(&self) -> (r: Status)
        ensures
            r == self@.status,
    {
        self.status
    }

    /// Whether a process handle is held.
    pub fn has_handle(&self) -> (r: bool)
        ensures
            r == self@.handle is Some,
    {
        self.slot.is_some()
    }

    /// Enters the starting status; refused, with nothing changed, unless the
    /// supervisor has not been started and holds no handle.
    pub fn begin_start(&mut self) -> (r: bool)
        ensures
            r == start_accepted(old(self)@),
            final(self)@ == after_begin_start(old(self)@),
            valid(final(self)@),
    {
        proof {
            use_type_invariant(&*self);
        }
        if self.status == Status::NotStarted && self.slot.is_none() {
            self.status = Status::Starting;
            true
        } else {
            false
        }
    }

    /// Stores the handle of the spawned process. Refused while not starting or
    /// while a handle is already held: the handle is then handed back.
    pub fn store_handle(&mut self, h: H) -> (r: Option<H>)
        ensures
            store_accepted(old(self)@) ==> r is None,
            !store_accepted(old(self)@) ==> r == Some(h),
            final(self)@ == after_store(old(self)@, h),
            valid(final(self)@),
    {
        proof {
            use_type_invariant(&*self);
        }
        if self.status == Status::Starting && self.slot.is_none() {
            self.slot = Some(h);
            None
        } else {
            Some(h)
        }
    }

    /// Records the outcome of the health poll. Returns whether the readiness
    /// notification is to be published now: only for the first outcome.
    pub fn report_health(&mut self, healthy: bool) -> (r: bool)
        ensures
            r == !old(self)@.notified,
            final(self)@ == after_health(old(self)@, healthy),
            valid(final(self)@),
    {
        proof {
            use_type_invariant(&*self);
        }
        if self.notified {
            false
        } else {
            let status = if self.status == Status::Starting {
                if healthy {
                    Status::Healthy
                } else {
                    Status::Unhealthy
                }
            } else {
                self.status
            };
            self.status = status;
            self.notified = true;
            true
        }
    }

    /// Takes the held handle out of the slot, if any, and enters the terminated
    /// status; no other path can act on the handle afterwards.
    pub fn shutdown(&mut self) -> (r: Option<H>)
        ensures
            r == old(self)@.handle,
            final(self)@ == after_shutdown(old(self)@),
            valid(final(self)@),
    {
        proof {
            use_type_invariant(&*self);
        }
        let mut prev = Supervisor { status: Status::Terminated, slot: None, notified: self.notified };
        std::mem::swap(self, &mut prev);
        prev.slot
    }
}

} // verus!
