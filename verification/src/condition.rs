//! Conditions and their trinary verdicts.
//!
//! A condition is evaluated against a snapshot of condition inputs and
//! yields one of three verdicts: `Continue`, `Wait`, or `Abort`. Discrete
//! (one-shot gating) conditions additionally carry a timeout policy that
//! escalates a sustained `Wait` into an `Abort` once an elapsed-time budget
//! is exhausted. Continuous (interrupt) conditions are evaluated every tick
//! and combined by strict precedence: `Abort` > `Wait` > `Continue`.

use vstd::prelude::*;

verus! {

/// The three-valued verdict produced by evaluating a condition against a
/// snapshot of condition inputs.
#[derive(Clone, Copy, Debug, PartialEq, Eq, Structural)]
pub enum Response {
    Continue,
    Wait,
    Abort,
}

/// A snapshot of sensor-derived condition inputs for one control cycle.
///
/// Each channel carries the trinary signal that the surrounding pipeline
/// derived from its sensors for this cycle; how those signals are derived
/// is outside the sequencing core.
#[derive(Clone, Debug)]
pub struct ConditionInput {
    pub signals: Vec<Response>,
}

/// How a condition derives its verdict from the input snapshot.
#[derive(Clone, Copy, Debug, PartialEq, Eq, Structural)]
pub enum ConditionKind {
    /// Always yields the same verdict, whatever the snapshot holds.
    Fixed(Response),
    /// Yields the verdict of the given signal channel; a channel the
    /// snapshot does not carry imposes no constraint (`Continue`).
    Signal(usize),
}

/// Verdict of a condition kind against a snapshot of signals.
pub open spec fn spec_eval_kind(kind: ConditionKind, signals: Seq<Response>) -> Response {
    match kind {
        ConditionKind::Fixed(response) => response,
        ConditionKind::Signal(channel) => {
            if channel < signals.len() {
                signals[channel as int]
            } else {
                Response::Continue
            }
        },
    }
}

/// Whether an optional elapsed-time budget is exhausted at `elapsed_ns`.
pub open spec fn spec_timed_out(timeout_ns: Option<u64>, elapsed_ns: u64) -> bool {
    match timeout_ns {
        Some(budget_ns) => elapsed_ns >= budget_ns,
        None => false,
    }
}

/// Timeout wrapping: a sustained `Wait` escalates to `Abort` once the
/// budget is exhausted; `Continue` and `Abort` pass through unchanged.
pub open spec fn spec_with_timeout(response: Response, timed_out: bool) -> Response {
    if response == Response::Wait && timed_out {
        Response::Abort
    } else {
        response
    }
}

/// Timeout-wrapped verdict of a discrete gating condition, `elapsed_ns`
/// nanoseconds into its gating phase.
pub open spec fn spec_eval_discrete(
    condition: DiscreteConditionType,
    signals: Seq<Response>,
    elapsed_ns: u64,
) -> Response {
    spec_with_timeout(
        spec_eval_kind(condition.kind, signals),
        spec_timed_out(condition.timeout_ns, elapsed_ns),
    )
}

/// Pairwise verdict combination by strict precedence:
/// `Abort` dominates everything, then `Wait` dominates `Continue`.
pub open spec fn spec_combine(accumulated: Response, current: Response) -> Response {
    if accumulated == Response::Abort || current == Response::Abort {
        Response::Abort
    } else if accumulated == Response::Wait || current == Response::Wait {
        Response::Wait
    } else {
        Response::Continue
    }
}

/// Left-to-right combination of all interrupt verdicts for one tick.
/// With no interrupts configured the combined verdict is `Continue`.
pub open spec fn spec_combined_verdict(
    interrupts: Seq<ContinuousConditionType>,
    signals: Seq<Response>,
) -> Response
    decreases interrupts.len(),
{
    if interrupts.len() == 0 {
        Response::Continue
    } else {
        spec_combine(
            spec_combined_verdict(interrupts.drop_last(), signals),
            spec_eval_kind(interrupts.last().kind, signals),
        )
    }
}

/// A one-shot gating condition together with its timeout policy: an
/// optional elapsed-time budget after which a sustained `Wait` verdict is
/// escalated to `Abort`.
#[derive(Clone, Copy, Debug, PartialEq, Eq, Structural)]
pub struct DiscreteConditionType {
    pub kind: ConditionKind,
    pub timeout_ns: Option<u64>,
}

/// A continuously monitored interrupt condition, evaluated every tick for
/// as long as the machine's current phase belongs to its segment.
#[derive(Clone, Copy, Debug, PartialEq, Eq, Structural)]
pub struct ContinuousConditionType {
    pub kind: ConditionKind,
}

impl Response {
    /// Applies the timeout escalation rule to this verdict.
    pub fn with_timeout(self, timed_out: bool) -> (response: Response)
        ensures
            response == spec_with_timeout(self, timed_out),
    {
        match self {
            Response::Wait => {
                if timed_out {
                    Response::Abort
                } else {
                    Response::Wait
                }
            },
            other => other,
        }
    }
}

impl ConditionKind {
    /// Evaluates this condition kind against the snapshot.
    pub fn evaluate(&self, condition_input: &ConditionInput) -> (response: Response)
        ensures
            response == spec_eval_kind(*self, condition_input.signals@),
    {
        match self {
            ConditionKind::Fixed(response) => *response,
            ConditionKind::Signal(channel) => {
                if *channel < condition_input.signals.len() {
                    condition_input.signals[*channel]
                } else {
                    Response::Continue
                }
            },
        }
    }
}

impl DiscreteConditionType {
    /// Evaluates this gating condition against the snapshot, without
    /// timeout wrapping.
    pub fn evaluate(&self, condition_input: &ConditionInput) -> (response: Response)
        ensures
            response == spec_eval_kind(self.kind, condition_input.signals@),
    {
        self.kind.evaluate(condition_input)
    }

    /// Whether this condition's timeout budget is exhausted `elapsed_ns`
    /// nanoseconds into its gating phase.
    pub fn timeout(&self, elapsed_ns: u64) -> (timed_out: bool)
        ensures
            timed_out == spec_timed_out(self.timeout_ns, elapsed_ns),
    {
        match self.timeout_ns {
            Some(budget_ns) => elapsed_ns >= budget_ns,
            None => false,
        }
    }
}

impl ContinuousConditionType {
    /// Evaluates this interrupt condition against the snapshot.
    pub fn evaluate(&self, condition_input: &ConditionInput) -> (response: Response)
        ensures
            response == spec_eval_kind(self.kind, condition_input.signals@),
    {
        self.kind.evaluate(condition_input)
    }
}

} // verus!
