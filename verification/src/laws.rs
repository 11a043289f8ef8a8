//! The guarantees of the tick relation, stated and proved once for every
//! machine, phase, time step, and condition-input snapshot.
//!
//! Each law is a public proof function over the same specification
//! functions that the executable methods' contracts use, so what is proved
//! here holds of every [`crate::motion_interpolator::MotionInterpolator`]
//! driven through [`crate::motion_interpolator::MotionInterpolator::advance_by`].

use crate::condition::{spec_eval_discrete, Response};
use crate::motion_interpolator::{
    spec_interrupt_verdict, spec_is_finished, spec_machine_wf, spec_next_state, spec_sat_add,
    spec_value, ConditionedSpline, State,
};
use crate::timed_spline::spec_total_duration;
use vstd::prelude::*;

verus! {

/// Total duration of the segment at `frame_index`, in nanoseconds.
pub open spec fn spec_segment_duration(frames: Seq<ConditionedSpline>, frame_index: int) -> int {
    spec_total_duration(frames[frame_index].spline.keyframes@)
}

/// Whether no segment of the sequence carries any condition: no entry or
/// exit gate and no interrupts.
pub open spec fn spec_unconditioned(frames: Seq<ConditionedSpline>) -> bool {
    forall|j: int|
        0 <= j < frames.len() ==> {
            let frame = #[trigger] frames[j];
            &&& frame.entry_condition is None
            &&& frame.exit_condition is None
            &&& frame.motion_interrupts@.len() == 0
        }
}

/// The machine's phase after `ticks` ticks, each with the same time step
/// and condition-input snapshot.
pub open spec fn spec_run(
    frames: Seq<ConditionedSpline>,
    state: State,
    time_step_ns: u64,
    signals: Seq<Response>,
    ticks: nat,
) -> State
    decreases ticks,
{
    if ticks == 0 {
        state
    } else {
        spec_run(
            frames,
            spec_next_state(frames, state, time_step_ns, signals),
            time_step_ns,
            signals,
            (ticks - 1) as nat,
        )
    }
}

/// While gating entry, a tick on which the entry condition evaluates to
/// `Wait` (after timeout wrapping) and no interrupt fires accumulates
/// exactly the tick's time step in the phase's elapsed counter; the phase
/// kind and frame index are unchanged.
pub proof fn lemma_entry_wait_accumulates(
    frames: Seq<ConditionedSpline>,
    frame_index: usize,
    elapsed_ns: u64,
    time_step_ns: u64,
    signals: Seq<Response>,
)
    requires
        spec_machine_wf(
            frames,
            State::CheckEntry { current_frame_index: frame_index, time_since_start_ns: elapsed_ns },
        ),
        spec_interrupt_verdict(
            frames,
            State::CheckEntry { current_frame_index: frame_index, time_since_start_ns: elapsed_ns },
            signals,
        ) == Response::Continue,
        frames[frame_index as int].entry_condition matches Some(condition)
            && spec_eval_discrete(condition, signals, elapsed_ns) == Response::Wait,
        elapsed_ns + time_step_ns <= u64::MAX,
    ensures
        spec_next_state(
            frames,
            State::CheckEntry { current_frame_index: frame_index, time_since_start_ns: elapsed_ns },
            time_step_ns,
            signals,
        ) == (State::CheckEntry {
            current_frame_index: frame_index,
            time_since_start_ns: (elapsed_ns + time_step_ns) as u64,
        }),
{
}

/// While gating exit, a tick on which the exit condition evaluates to
/// `Wait` (after timeout wrapping) and no interrupt fires accumulates
/// exactly the tick's time step in the phase's elapsed counter; the phase
/// kind and frame index are unchanged.
pub proof fn lemma_exit_wait_accumulates(
    frames: Seq<ConditionedSpline>,
    frame_index: usize,
    elapsed_ns: u64,
    time_step_ns: u64,
    signals: Seq<Response>,
)
    requires
        spec_machine_wf(
            frames,
            State::CheckExit { current_frame_index: frame_index, time_since_start_ns: elapsed_ns },
        ),
        spec_interrupt_verdict(
            frames,
            State::CheckExit { current_frame_index: frame_index, time_since_start_ns: elapsed_ns },
            signals,
        ) == Response::Continue,
        frames[frame_index as int].exit_condition matches Some(condition)
            && spec_eval_discrete(condition, signals, elapsed_ns) == Response::Wait,
        elapsed_ns + time_step_ns <= u64::MAX,
    ensures
        spec_next_state(
            frames,
            State::CheckExit { current_frame_index: frame_index, time_since_start_ns: elapsed_ns },
            time_step_ns,
            signals,
        ) == (State::CheckExit {
            current_frame_index: frame_index,
            time_since_start_ns: (elapsed_ns + time_step_ns) as u64,
        }),
{
}

/// A tick on which the combined interrupt verdict is `Wait` leaves the
/// phase wholly unchanged, whatever the gating conditions say: no elapsed
/// time accumulates anywhere that tick.
pub proof fn lemma_interrupt_wait_freezes_tick(
    frames: Seq<ConditionedSpline>,
    state: State,
    time_step_ns: u64,
    signals: Seq<Response>,
)
    requires
        spec_interrupt_verdict(frames, state, signals) == Response::Wait,
    ensures
        spec_next_state(frames, state, time_step_ns, signals) == state,
{
}

/// A tick on which the combined interrupt verdict is `Abort` moves the
/// machine to `Aborted`, recording exactly the commanded position the
/// machine reported immediately before the tick.
pub proof fn lemma_interrupt_abort_freezes_position(
    frames: Seq<ConditionedSpline>,
    state: State,
    time_step_ns: u64,
    signals: Seq<Response>,
)
    requires
        spec_interrupt_verdict(frames, state, signals) == Response::Abort,
    ensures
        spec_next_state(frames, state, time_step_ns, signals) == (State::Aborted {
            at_position: spec_value(frames, state) as i64,
        }),
{
}

/// The terminal phases are fixed points: once `Finished` or `Aborted`,
/// every further tick leaves the phase unchanged, whatever the time step
/// or the snapshot.
pub proof fn lemma_terminal_phase_is_fixed(
    frames: Seq<ConditionedSpline>,
    state: State,
    time_step_ns: u64,
    signals: Seq<Response>,
)
    requires
        spec_is_finished(state),
    ensures
        spec_next_state(frames, state, time_step_ns, signals) == state,
{
}

/// With no conditions configured anywhere, each tick moves the phase one
/// step along the canonical visiting order
/// `CheckEntry{i}`, `Interpolating{i}`, `CheckExit{i}`, `CheckEntry{i+1}`,
/// ..., `Finished`; interpolation holds its frame until its elapsed time
/// reaches the segment's total duration.
pub proof fn lemma_unconditioned_tick_order(
    frames: Seq<ConditionedSpline>,
    state: State,
    time_step_ns: u64,
    signals: Seq<Response>,
)
    requires
        spec_machine_wf(frames, state),
        spec_unconditioned(frames),
        !spec_is_finished(state),
    ensures
        state matches State::CheckEntry { current_frame_index, .. } ==> spec_next_state(
            frames,
            state,
            time_step_ns,
            signals,
        ) == (State::InterpolateSpline { current_frame_index, time_since_start_ns: 0 }),
        state matches State::InterpolateSpline { current_frame_index, time_since_start_ns }
            ==> spec_next_state(frames, state, time_step_ns, signals) == (
        if time_since_start_ns as int >= spec_segment_duration(frames, current_frame_index as int) {
            State::CheckExit { current_frame_index, time_since_start_ns: 0 }
        } else {
            State::InterpolateSpline {
                current_frame_index,
                time_since_start_ns: spec_sat_add(time_since_start_ns, time_step_ns),
            }
        }),
        state matches State::CheckExit { current_frame_index, .. } ==> spec_next_state(
            frames,
            state,
            time_step_ns,
            signals,
        ) == (if current_frame_index as int + 1 < frames.len() {
            State::CheckEntry {
                current_frame_index: (current_frame_index + 1) as usize,
                time_since_start_ns: 0,
            }
        } else {
            State::Finished
        }),
{
}

/// The least number of ticks of size `step` whose sum reaches `remaining`.
pub open spec fn spec_ticks_to_reach(remaining: int, step: int) -> nat
    decreases (if remaining <= 0 { 0int } else { remaining }) when step > 0
{
    if remaining <= 0 {
        0
    } else {
        1 + spec_ticks_to_reach(remaining - step, step)
    }
}

/// The cumulative time of [`spec_ticks_to_reach`] ticks reaches the
/// target, and it is the least such count: one tick fewer falls short. So
/// a run through [`lemma_sequencing_finishes`] spends, inside each
/// segment, exactly as many ticks as it takes the cumulative time step to
/// reach that segment's total duration.
pub proof fn lemma_ticks_to_reach_is_least(remaining: int, step: int)
    requires
        step > 0,
    ensures
        spec_ticks_to_reach(remaining, step) * step >= remaining,
        spec_ticks_to_reach(remaining, step) > 0 ==> (spec_ticks_to_reach(remaining, step) - 1)
            * step < remaining,
    decreases (if remaining <= 0 { 0int } else { remaining }),
{
    if remaining > 0 {
        lemma_ticks_to_reach_is_least(remaining - step, step);
        let sub_ticks = spec_ticks_to_reach(remaining - step, step);
        assert((1 + sub_ticks) * step == step + sub_ticks * step) by (nonlinear_arith);
        if sub_ticks > 0 {
            assert(sub_ticks * step == (sub_ticks - 1) * step + step) by (nonlinear_arith);
        }
    }
}

/// One tick of a run: running `ticks > 0` ticks is one tick, then the
/// rest.
pub proof fn lemma_run_unfold(
    frames: Seq<ConditionedSpline>,
    state: State,
    time_step_ns: u64,
    signals: Seq<Response>,
    ticks: nat,
)
    requires
        ticks > 0,
    ensures
        spec_run(frames, state, time_step_ns, signals, ticks) == spec_run(
            frames,
            spec_next_state(frames, state, time_step_ns, signals),
            time_step_ns,
            signals,
            (ticks - 1) as nat,
        ),
{
}

/// Running `a + b` ticks is running `a` ticks, then `b` more.
pub proof fn lemma_run_splits(
    frames: Seq<ConditionedSpline>,
    state: State,
    time_step_ns: u64,
    signals: Seq<Response>,
    a: nat,
    b: nat,
)
    ensures
        spec_run(frames, state, time_step_ns, signals, a + b) == spec_run(
            frames,
            spec_run(frames, state, time_step_ns, signals, a),
            time_step_ns,
            signals,
            b,
        ),
    decreases a,
{
    if a > 0 {
        lemma_run_splits(
            frames,
            spec_next_state(frames, state, time_step_ns, signals),
            time_step_ns,
            signals,
            (a - 1) as nat,
            b,
        );
    }
}

/// With no conditions configured, interpolation within segment
/// `frame_index` leaves for `CheckExit` after exactly one tick more than
/// it takes the elapsed counter to reach the segment's total duration.
proof fn lemma_interpolation_progress(
    frames: Seq<ConditionedSpline>,
    frame_index: usize,
    elapsed_ns: u64,
    time_step_ns: u64,
    signals: Seq<Response>,
)
    requires
        spec_machine_wf(
            frames,
            State::InterpolateSpline {
                current_frame_index: frame_index,
                time_since_start_ns: elapsed_ns,
            },
        ),
        spec_unconditioned(frames),
        time_step_ns > 0,
        spec_segment_duration(frames, frame_index as int) + time_step_ns <= u64::MAX,
    ensures
        spec_run(
            frames,
            State::InterpolateSpline {
                current_frame_index: frame_index,
                time_since_start_ns: elapsed_ns,
            },
            time_step_ns,
            signals,
            spec_ticks_to_reach(
                spec_segment_duration(frames, frame_index as int) - elapsed_ns,
                time_step_ns as int,
            ) + 1,
        ) == (State::CheckExit { current_frame_index: frame_index, time_since_start_ns: 0 }),
    decreases spec_ticks_to_reach(
        spec_segment_duration(frames, frame_index as int) - elapsed_ns,
        time_step_ns as int,
    ),
{
    let duration = spec_segment_duration(frames, frame_index as int);
    let state = State::InterpolateSpline {
        current_frame_index: frame_index,
        time_since_start_ns: elapsed_ns,
    };
    let exit = State::CheckExit { current_frame_index: frame_index, time_since_start_ns: 0 };
    lemma_unconditioned_tick_order(frames, state, time_step_ns, signals);
    let next = spec_next_state(frames, state, time_step_ns, signals);
    if duration - elapsed_ns <= 0 {
        assert(spec_ticks_to_reach(duration - elapsed_ns, time_step_ns as int) == 0);
        assert(next == exit);
        lemma_run_unfold(frames, state, time_step_ns, signals, 1);
        assert(spec_run(frames, exit, time_step_ns, signals, 0) == exit);
    } else {
        let advanced = spec_sat_add(elapsed_ns, time_step_ns);
        assert(elapsed_ns + time_step_ns <= u64::MAX);
        assert(advanced == elapsed_ns + time_step_ns);
        assert(next == (State::InterpolateSpline {
            current_frame_index: frame_index,
            time_since_start_ns: advanced,
        }));
        let sub_ticks = spec_ticks_to_reach(duration - advanced, time_step_ns as int);
        assert(spec_ticks_to_reach(duration - elapsed_ns, time_step_ns as int) == 1 + sub_ticks);
        lemma_interpolation_progress(frames, frame_index, advanced, time_step_ns, signals);
        lemma_run_unfold(frames, state, time_step_ns, signals, 1 + sub_ticks + 1);
    }
}

/// Ticks for the machine to pass through segments `from ..`, three more
/// per segment than interpolation needs: one to pass entry, one to leave
/// interpolation once its clock has reached the duration, one to pass
/// exit.
pub open spec fn spec_ticks_for_segments(
    frames: Seq<ConditionedSpline>,
    from: int,
    step: int,
) -> nat
    decreases frames.len() - from,
{
    if from < 0 || from >= frames.len() {
        0
    } else {
        spec_ticks_to_reach(spec_segment_duration(frames, from), step) + 3
            + spec_ticks_for_segments(frames, from + 1, step)
    }
}

/// Sequencing: with no conditions configured anywhere and a positive time
/// step, a machine gating entry into segment `frame_index` reaches
/// `Finished` after exactly [`spec_ticks_for_segments`] ticks, passing
/// every remaining segment in order (the order each tick takes is
/// [`lemma_unconditioned_tick_order`]).
pub proof fn lemma_sequencing_finishes(
    frames: Seq<ConditionedSpline>,
    frame_index: usize,
    time_step_ns: u64,
    signals: Seq<Response>,
)
    requires
        spec_machine_wf(
            frames,
            State::CheckEntry { current_frame_index: frame_index, time_since_start_ns: 0 },
        ),
        spec_unconditioned(frames),
        frames.len() <= usize::MAX,
        time_step_ns > 0,
        forall|j: int|
            0 <= j < frames.len() ==> #[trigger] spec_segment_duration(frames, j) + time_step_ns
                <= u64::MAX,
    ensures
        spec_run(
            frames,
            State::CheckEntry { current_frame_index: frame_index, time_since_start_ns: 0 },
            time_step_ns,
            signals,
            spec_ticks_for_segments(frames, frame_index as int, time_step_ns as int),
        ) == State::Finished,
    decreases frames.len() - frame_index,
{
    let entry = State::CheckEntry { current_frame_index: frame_index, time_since_start_ns: 0 };
    let interpolating = State::InterpolateSpline {
        current_frame_index: frame_index,
        time_since_start_ns: 0,
    };
    let exit = State::CheckExit { current_frame_index: frame_index, time_since_start_ns: 0 };
    let duration = spec_segment_duration(frames, frame_index as int);
    let interp_ticks = spec_ticks_to_reach(duration, time_step_ns as int);
    let rest_ticks = spec_ticks_for_segments(frames, frame_index as int + 1, time_step_ns as int);
    assert(spec_ticks_for_segments(frames, frame_index as int, time_step_ns as int) == interp_ticks
        + 3 + rest_ticks);

    lemma_unconditioned_tick_order(frames, entry, time_step_ns, signals);
    lemma_run_unfold(frames, entry, time_step_ns, signals, 1);
    assert(spec_run(frames, interpolating, time_step_ns, signals, 0) == interpolating);
    assert(spec_run(frames, entry, time_step_ns, signals, 1) == interpolating);

    lemma_interpolation_progress(frames, frame_index, 0, time_step_ns, signals);
    lemma_run_splits(frames, entry, time_step_ns, signals, 1, interp_ticks + 1);
    assert(spec_run(frames, entry, time_step_ns, signals, interp_ticks + 2) == exit);

    lemma_unconditioned_tick_order(frames, exit, time_step_ns, signals);
    lemma_run_splits(frames, entry, time_step_ns, signals, interp_ticks + 2, 1);
    lemma_run_unfold(frames, exit, time_step_ns, signals, 1);
    let after_exit = spec_next_state(frames, exit, time_step_ns, signals);
    assert(spec_run(frames, entry, time_step_ns, signals, interp_ticks + 3) == after_exit);

    if frame_index as int + 1 < frames.len() {
        let next_entry = State::CheckEntry {
            current_frame_index: (frame_index + 1) as usize,
            time_since_start_ns: 0,
        };
        assert(after_exit == next_entry);
        lemma_sequencing_finishes(frames, (frame_index + 1) as usize, time_step_ns, signals);
        lemma_run_splits(
            frames,
            entry,
            time_step_ns,
            signals,
            interp_ticks + 3,
            spec_ticks_for_segments(frames, frame_index as int + 1, time_step_ns as int),
        );
    } else {
        assert(after_exit == State::Finished);
        assert(spec_ticks_for_segments(frames, frame_index as int + 1, time_step_ns as int) == 0);
        lemma_terminal_phase_is_fixed(frames, State::Finished, time_step_ns, signals);
    }
}

} // verus!
