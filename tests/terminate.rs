use backend_supervisor::launch::SignalScope;
use backend_supervisor::terminate::{signal_target, termination_plan, SignalTarget, TermStep, GRACE_PERIOD_MS};

#[test]
fn exited_process_needs_no_steps() {
    assert!(termination_plan(true, 4242, SignalScope::Group).is_empty());
    assert!(termination_plan(true, 4242, SignalScope::Single).is_empty());
}

#[test]
fn group_teardown_escalates_then_reaps() {
    let plan = termination_plan(false, 4242, SignalScope::Group);
    assert_eq!(
        plan,
        vec![
            TermStep::Signal { target: SignalTarget::Group(-4242), forceful: false },
            TermStep::Pause { millis: 500 },
            TermStep::Signal { target: SignalTarget::Group(-4242), forceful: true },
            TermStep::Reap,
        ]
    );
    assert_eq!(GRACE_PERIOD_MS, 500);
}

#[test]
fn single_process_teardown_targets_child() {
    let plan = termination_plan(false, 4242, SignalScope::Single);
    assert_eq!(
        plan,
        vec![
            TermStep::Signal { target: SignalTarget::Child, forceful: false },
            TermStep::Pause { millis: 500 },
            TermStep::Signal { target: SignalTarget::Child, forceful: true },
            TermStep::Reap,
        ]
    );
}

#[test]
fn group_signal_never_reaches_own_group_or_everyone() {
    assert_eq!(signal_target(0, SignalScope::Group), SignalTarget::Child);
    assert_eq!(signal_target(1, SignalScope::Group), SignalTarget::Child);
    assert_eq!(signal_target(2, SignalScope::Group), SignalTarget::Group(-2));
    assert_eq!(signal_target(2147483647, SignalScope::Group), SignalTarget::Group(-2147483647));
    assert_eq!(signal_target(2147483648, SignalScope::Group), SignalTarget::Child);
    assert_eq!(signal_target(u32::MAX, SignalScope::Group), SignalTarget::Child);
}
