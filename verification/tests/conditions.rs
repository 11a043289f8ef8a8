use motionfile::condition::{
    ConditionInput, ConditionKind, ContinuousConditionType, DiscreteConditionType, Response,
};

#[test]
fn timeout_escalates_only_a_wait() {
    assert_eq!(Response::Wait.with_timeout(true), Response::Abort);
    assert_eq!(Response::Wait.with_timeout(false), Response::Wait);
    assert_eq!(Response::Continue.with_timeout(true), Response::Continue);
    assert_eq!(Response::Abort.with_timeout(true), Response::Abort);
    assert_eq!(Response::Abort.with_timeout(false), Response::Abort);
}

#[test]
fn timeout_budget_is_inclusive() {
    let condition = DiscreteConditionType {
        kind: ConditionKind::Fixed(Response::Wait),
        timeout_ns: Some(100),
    };
    assert!(!condition.timeout(0));
    assert!(!condition.timeout(99));
    assert!(condition.timeout(100));
    assert!(condition.timeout(101));
}

#[test]
fn missing_budget_never_times_out() {
    let condition = DiscreteConditionType {
        kind: ConditionKind::Fixed(Response::Wait),
        timeout_ns: None,
    };
    assert!(!condition.timeout(0));
    assert!(!condition.timeout(u64::MAX));
}

#[test]
fn fixed_kind_ignores_the_snapshot() {
    let input = ConditionInput { signals: vec![Response::Abort, Response::Wait] };
    assert_eq!(ConditionKind::Fixed(Response::Continue).evaluate(&input), Response::Continue);
    assert_eq!(ConditionKind::Fixed(Response::Wait).evaluate(&input), Response::Wait);
    assert_eq!(ConditionKind::Fixed(Response::Abort).evaluate(&input), Response::Abort);
}

#[test]
fn signal_kind_reads_its_channel() {
    let input = ConditionInput { signals: vec![Response::Continue, Response::Wait, Response::Abort] };
    assert_eq!(ConditionKind::Signal(0).evaluate(&input), Response::Continue);
    assert_eq!(ConditionKind::Signal(1).evaluate(&input), Response::Wait);
    assert_eq!(ConditionKind::Signal(2).evaluate(&input), Response::Abort);
    // A channel the snapshot does not carry imposes no constraint.
    assert_eq!(ConditionKind::Signal(3).evaluate(&input), Response::Continue);
}

#[test]
fn condition_wrappers_evaluate_their_kind() {
    let input = ConditionInput { signals: vec![Response::Wait] };
    let discrete = DiscreteConditionType { kind: ConditionKind::Signal(0), timeout_ns: Some(5) };
    assert_eq!(discrete.evaluate(&input), Response::Wait);
    let continuous = ContinuousConditionType { kind: ConditionKind::Signal(0) };
    assert_eq!(continuous.evaluate(&input), Response::Wait);
}
