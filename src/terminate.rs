//! The order of signals, pauses and the final reap that tear the backend down.
use vstd::prelude::*;

use crate::launch::SignalScope;

verus! {

/// Time granted to the process between the graceful and the forceful signal.
pub const GRACE_PERIOD_MS: u64 = 500;

/// Whom a signal is sent to.
#[derive(Clone, Copy, Debug, PartialEq, Eq, Structural)]
pub enum SignalTarget {
    /// The whole process group; the value is the argument handed to `kill`,
    /// the negated group identifier.
    Group(i32),
    /// The tracked child process alone.
    Child,
}

/// One step of tearing the backend down.
#[derive(Clone, Copy, Debug, PartialEq, Eq, Structural)]
pub enum TermStep {
    /// Send a termination request (`forceful == false`) or an unconditional kill.
    Signal { target: SignalTarget, forceful: bool },
    /// Wait before the next step.
    Pause { millis: u64 },
    /// Block until the operating system confirms the exit, so no defunct entry stays.
    Reap,
}

/// Where the signals go: the child's process group when the platform can signal
/// groups and the identifier is one that `kill` reads as a group (not 0, which
/// would be the caller's own group, nor 1, whose negation means every process);
/// otherwise the tracked child alone.
pub open spec fn target_for(pid: u32, scope: SignalScope) -> SignalTarget {
    if scope == SignalScope::Group && 2 <= pid <= i32::MAX {
        SignalTarget::Group((-(pid as int)) as i32)
    } else {
        SignalTarget::Child
    }
}

/// The teardown of a process: nothing if it has already exited; else a graceful
/// signal, the grace period, a forceful signal to the same target, and the reap.
pub open spec fn plan_of(exited: bool, pid: u32, scope: SignalScope) -> Seq<TermStep> {
    if exited {
        seq![]
    } else {
        let t = target_for(pid, scope);
        seq![
            TermStep::Signal { target: t, forceful: false },
            TermStep::Pause { millis: GRACE_PERIOD_MS },
            TermStep::Signal { target: t, forceful: true },
            TermStep::Reap,
        ]
    }
}

/// Total time that the pauses of a plan take.
pub open spec fn total_pause(steps: Seq<TermStep>) -> nat
    decreases steps.len(),
{
    if steps.len() == 0 {
        0
    } else {
        let rest = total_pause(steps.drop_last());
        match steps.last() {
            TermStep::Pause { millis } => rest + millis as nat,
            _ => rest,
        }
    }
}

/// The signal target for a child with identifier `pid`.
pub fn signal_target(pid: u32, scope: SignalScope) -> (r: SignalTarget)
    ensures
        r == target_for(pid, scope),
{
    if scope == SignalScope::Group && 2 <= pid && pid <= 2147483647 {
        SignalTarget::Group(-(pid as i32))
    } else {
        SignalTarget::Child
    }
}

/// The steps that terminate the child with identifier `pid`, given whether it
/// is already known to have exited.
pub fn termination_plan(exited: bool, pid: u32, scope: SignalScope) -> (r: Vec<TermStep>)
    ensures
        r@ == plan_of(exited, pid, scope),
{
    if exited {
        return Vec::new();
    }
    let t = signal_target(pid, scope);
    let mut r: Vec<TermStep> = Vec::new();
    r.push(TermStep::Signal { target: t, forceful: false });
    r.push(TermStep::Pause { millis: GRACE_PERIOD_MS });
    r.push(TermStep::Signal { target: t, forceful: true });
    r.push(TermStep::Reap);
    proof {
        assert(r@ =~= plan_of(exited, pid, scope));
    }
    r
}

/// Terminating a process that has already exited does nothing.
pub proof fn lemma_exited_is_noop(pid: u32, scope: SignalScope)
    ensures
        plan_of(true, pid, scope).len() == 0,
{
}

/// Terminating a running process ends in a reap, right after a forceful signal
/// to the target of the graceful one, and the pauses on the way take the grace
/// period exactly. A group signal never reaches the caller's own group nor every
/// process: its argument is the negation of a group identifier of at least 2.
pub proof fn lemma_plan_ends_reaped(pid: u32, scope: SignalScope)
    ensures
        plan_of(false, pid, scope).len() == 4,
        plan_of(false, pid, scope).last() == TermStep::Reap,
        plan_of(false, pid, scope)[2] == (TermStep::Signal { target: target_for(pid, scope), forceful: true }),
        plan_of(false, pid, scope)[0] == (TermStep::Signal { target: target_for(pid, scope), forceful: false }),
        total_pause(plan_of(false, pid, scope)) == GRACE_PERIOD_MS,
        forall|g: i32| target_for(pid, scope) == SignalTarget::Group(g) ==> g <= -2,
        scope == SignalScope::Single ==> target_for(pid, scope) == SignalTarget::Child,
{
    let p = plan_of(false, pid, scope);
    let first_three = p.drop_last();
    let first_two = first_three.drop_last();
    let first_one = first_two.drop_last();
    assert(first_one.drop_last().len() == 0);
    assert(total_pause(first_one.drop_last()) == 0);
    assert(first_one.last() == p[0]);
    assert(total_pause(first_one) == 0);
    assert(first_two.last() == p[1]);
    assert(total_pause(first_two) == GRACE_PERIOD_MS);
    assert(first_three.last() == p[2]);
    assert(total_pause(first_three) == GRACE_PERIOD_MS);
}

} // verus!
