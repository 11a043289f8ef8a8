//! The motion sequencing state machine.
//!
//! A [`MotionInterpolator`] owns a fixed, validated sequence of conditioned
//! segments and a single current [`State`]. Once per control cycle the
//! caller hands it the elapsed time step and the latest condition-input
//! snapshot via [`MotionInterpolator::advance_by`]; it then reads back the
//! commanded position with [`MotionInterpolator::value`] and the completion
//! flag with [`MotionInterpolator::is_finished`].
//!
//! Each tick first combines the current segment's continuous interrupt
//! verdicts by strict precedence (`Abort` > `Wait` > `Continue`): `Abort`
//! freezes the machine at the current position, `Wait` consumes the whole
//! tick with no phase change and no elapsed-time accumulation anywhere, and
//! only `Continue` reaches the phase-advancement logic, which applies the
//! timeout-wrapped entry/exit gating and the interpolation clock.

use crate::condition::{
    spec_combined_verdict, spec_eval_discrete, ConditionInput, ContinuousConditionType,
    DiscreteConditionType, Response,
};
use crate::timed_spline::{
    spec_group_error, spec_keyframes_valid, spec_total_duration, spec_value_at, InterpolationMode,
    InterpolatorError, Keyframe, TimedSpline,
};
use vstd::prelude::*;

verus! {

/// One segment of the motion, paired with its gating and interrupt
/// conditions: the entry condition gates entry into the segment, the
/// interrupts are monitored on every tick the machine spends in the
/// segment, and the exit condition gates leaving it.
#[derive(Clone, Debug)]
pub struct ConditionedSpline {
    pub entry_condition: Option<DiscreteConditionType>,
    pub motion_interrupts: Vec<ContinuousConditionType>,
    pub spline: TimedSpline,
    pub exit_condition: Option<DiscreteConditionType>,
}

/// The machine's current phase. `frame_index` is always a valid index into
/// the segment sequence while in one of the three per-segment phases;
/// `Finished` and `Aborted` are terminal.
#[derive(Clone, Copy, Debug, PartialEq, Eq, Structural)]
pub enum State {
    /// Gating entry into segment `current_frame_index`; `time_since_start_ns`
    /// counts the time spent gating, for the timeout rule.
    CheckEntry { current_frame_index: usize, time_since_start_ns: u64 },
    /// Interpolating within segment `current_frame_index`;
    /// `time_since_start_ns` is the time since interpolation began.
    InterpolateSpline { current_frame_index: usize, time_since_start_ns: u64 },
    /// Gating exit from segment `current_frame_index`.
    CheckExit { current_frame_index: usize, time_since_start_ns: u64 },
    /// The whole sequence completed.
    Finished,
    /// The motion was aborted; the commanded position is frozen at the
    /// value it had immediately before the abort.
    Aborted { at_position: i64 },
}

/// One group of a declarative motion description: its gating and interrupt
/// conditions and the ordered keyframes the segment passes through.
#[derive(Clone, Debug)]
pub struct MotionFrame {
    pub entry_condition: Option<DiscreteConditionType>,
    pub motion_interrupts: Vec<ContinuousConditionType>,
    pub exit_condition: Option<DiscreteConditionType>,
    pub keyframes: Vec<Keyframe>,
}

/// A declarative motion description: ordered keyframe groups, the position
/// the motion nominally starts from, and the interpolation mode shared by
/// all segments.
#[derive(Clone, Debug)]
pub struct MotionFile {
    pub initial_positions: i64,
    pub interpolation_mode: InterpolationMode,
    pub motion: Vec<MotionFrame>,
}

/// Whether one tick's work is already complete (`Return`) or the tick may
/// proceed to phase advancement (`Continue`).
enum ReturnState {
    Return,
    Continue,
}

/// The frame index the machine is currently working in, if its phase
/// belongs to a segment.
pub open spec fn spec_current_frame_index(state: State) -> Option<usize> {
    match state {
        State::CheckEntry { current_frame_index, .. } => Some(current_frame_index),
        State::InterpolateSpline { current_frame_index, .. } => Some(current_frame_index),
        State::CheckExit { current_frame_index, .. } => Some(current_frame_index),
        State::Finished => None,
        State::Aborted { .. } => None,
    }
}

/// Whether a phase is terminal: fully completed or aborted.
pub open spec fn spec_is_finished(state: State) -> bool {
    state is Finished || state is Aborted
}

/// Structural validity of a machine: a non-empty segment sequence, every
/// segment well formed, and the phase's frame index in bounds.
pub open spec fn spec_machine_wf(frames: Seq<ConditionedSpline>, state: State) -> bool {
    &&& frames.len() > 0
    &&& forall|j: int| 0 <= j < frames.len() ==> frames[j].spline.wf()
    &&& match spec_current_frame_index(state) {
        Some(frame_index) => frame_index < frames.len(),
        None => true,
    }
}

/// The commanded position for a phase: the segment start while gating
/// entry, the interpolated value while interpolating, the segment end
/// while gating exit, the last segment's end when finished, and the frozen
/// position after an abort.
pub open spec fn spec_value(frames: Seq<ConditionedSpline>, state: State) -> int {
    match state {
        State::CheckEntry { current_frame_index, .. } => frames[
            current_frame_index as int
        ].spline.start as int,
        State::InterpolateSpline { current_frame_index, time_since_start_ns } => spec_value_at(
            frames[current_frame_index as int].spline.start,
            frames[current_frame_index as int].spline.keyframes@,
            time_since_start_ns as int,
        ),
        State::CheckExit { current_frame_index, .. } => frames[
            current_frame_index as int
        ].spline.keyframes@.last().positions as int,
        State::Finished => frames.last().spline.keyframes@.last().positions as int,
        State::Aborted { at_position } => at_position as int,
    }
}

/// The terminal phase an abort transitions to: the commanded position
/// immediately before the abort, frozen.
pub open spec fn spec_abort_state(frames: Seq<ConditionedSpline>, state: State) -> State {
    State::Aborted { at_position: spec_value(frames, state) as i64 }
}

/// Nanosecond addition that saturates at the top of the counter instead of
/// wrapping; the machine's elapsed-time counters use it so that no tick
/// can panic.
pub open spec fn spec_sat_add(a: u64, b: u64) -> u64 {
    if a + b > u64::MAX {
        u64::MAX
    } else {
        (a + b) as u64
    }
}

/// The combined verdict of the interrupts active this tick: those of the
/// current segment, or `Continue` when the phase carries no segment.
pub open spec fn spec_interrupt_verdict(
    frames: Seq<ConditionedSpline>,
    state: State,
    signals: Seq<Response>,
) -> Response {
    match spec_current_frame_index(state) {
        Some(frame_index) => spec_combined_verdict(
            frames[frame_index as int].motion_interrupts@,
            signals,
        ),
        None => Response::Continue,
    }
}

/// Phase advancement for one tick, reached only when the combined
/// interrupt verdict is `Continue`: timeout-wrapped entry/exit gating,
/// the interpolation clock, and self-transition of the terminal phases.
pub open spec fn spec_advance(
    frames: Seq<ConditionedSpline>,
    state: State,
    time_step_ns: u64,
    signals: Seq<Response>,
) -> State {
    match state {
        State::CheckEntry { current_frame_index, time_since_start_ns } => {
            match frames[current_frame_index as int].entry_condition {
                Some(condition) => {
                    match spec_eval_discrete(condition, signals, time_since_start_ns) {
                        Response::Abort => spec_abort_state(frames, state),
                        Response::Wait => State::CheckEntry {
                            current_frame_index,
                            time_since_start_ns: spec_sat_add(time_since_start_ns, time_step_ns),
                        },
                        Response::Continue => State::InterpolateSpline {
                            current_frame_index,
                            time_since_start_ns: 0,
                        },
                    }
                },
                None => State::InterpolateSpline { current_frame_index, time_since_start_ns: 0 },
            }
        },
        State::InterpolateSpline { current_frame_index, time_since_start_ns } => {
            if time_since_start_ns as int >= spec_total_duration(
                frames[current_frame_index as int].spline.keyframes@,
            ) {
                State::CheckExit { current_frame_index, time_since_start_ns: 0 }
            } else {
                State::InterpolateSpline {
                    current_frame_index,
                    time_since_start_ns: spec_sat_add(time_since_start_ns, time_step_ns),
                }
            }
        },
        State::CheckExit { current_frame_index, time_since_start_ns } => {
            match frames[current_frame_index as int].exit_condition {
                Some(condition) => {
                    match spec_eval_discrete(condition, signals, time_since_start_ns) {
                        Response::Abort => spec_abort_state(frames, state),
                        Response::Wait => State::CheckExit {
                            current_frame_index,
                            time_since_start_ns: spec_sat_add(time_since_start_ns, time_step_ns),
                        },
                        Response::Continue => {
                            if current_frame_index as int + 1 < frames.len() {
                                State::CheckEntry {
                                    current_frame_index: (current_frame_index + 1) as usize,
                                    time_since_start_ns: 0,
                                }
                            } else {
                                State::Finished
                            }
                        },
                    }
                },
                None => {
                    if current_frame_index as int + 1 < frames.len() {
                        State::CheckEntry {
                            current_frame_index: (current_frame_index + 1) as usize,
                            time_since_start_ns: 0,
                        }
                    } else {
                        State::Finished
                    }
                },
            }
        },
        State::Finished => State::Finished,
        State::Aborted { at_position } => State::Aborted { at_position },
    }
}

/// The machine's phase after one whole tick: the combined interrupt
/// verdict first (an `Abort` freezes the machine at the current position,
/// a `Wait` consumes the tick with no change anywhere), then phase
/// advancement.
pub open spec fn spec_next_state(
    frames: Seq<ConditionedSpline>,
    state: State,
    time_step_ns: u64,
    signals: Seq<Response>,
) -> State {
    match spec_interrupt_verdict(frames, state, signals) {
        Response::Abort => spec_abort_state(frames, state),
        Response::Wait => state,
        Response::Continue => spec_advance(frames, state, time_step_ns, signals),
    }
}

/// The position each segment of a motion description starts from: the
/// externally supplied initial position for the first group, the previous
/// group's last keyframe position for every later group.
pub open spec fn spec_frame_start(
    initial_positions: i64,
    motion: Seq<MotionFrame>,
    j: int,
) -> i64 {
    if j == 0 {
        initial_positions
    } else {
        motion[j - 1].keyframes@.last().positions
    }
}

/// Whether a motion description builds: it holds at least one group and
/// every group's keyframes are valid.
pub open spec fn spec_motion_valid(motion: Seq<MotionFrame>) -> bool {
    &&& motion.len() > 0
    &&& forall|j: int| 0 <= j < motion.len() ==> spec_keyframes_valid(motion[j].keyframes@)
}

/// The index of the first group whose keyframes are not valid (the length
/// when every group is valid).
pub open spec fn spec_first_invalid(motion: Seq<MotionFrame>) -> int
    decreases motion.len(),
{
    if motion.len() == 0 {
        0
    } else if !spec_keyframes_valid(motion[0].keyframes@) {
        0
    } else {
        1 + spec_first_invalid(motion.subrange(1, motion.len() as int))
    }
}

proof fn lemma_first_invalid(motion: Seq<MotionFrame>, j: int)
    requires
        0 <= j < motion.len(),
        forall|k: int| 0 <= k < j ==> spec_keyframes_valid(motion[k].keyframes@),
        !spec_keyframes_valid(motion[j].keyframes@),
    ensures
        spec_first_invalid(motion) == j,
    decreases j,
{
    if j > 0 {
        let rest = motion.subrange(1, motion.len() as int);
        assert(forall|k: int| 0 <= k < j - 1 ==> rest[k] == motion[k + 1]);
        lemma_first_invalid(rest, j - 1);
    }
}

impl Default for State {
    /// The phase every machine starts in: gating entry into the first
    /// segment, with no time spent yet.
    fn default() -> (state: State)
        ensures
            state == (State::CheckEntry { current_frame_index: 0, time_since_start_ns: 0 }),
    {
        State::CheckEntry { current_frame_index: 0, time_since_start_ns: 0 }
    }
}

impl State {
    /// The frame index this phase belongs to, if any.
    pub fn current_frame_index(&self) -> (frame_index: Option<usize>)
        ensures
            frame_index == spec_current_frame_index(*self),
    {
        match self {
            State::CheckEntry { current_frame_index, .. } => Some(*current_frame_index),
            State::InterpolateSpline { current_frame_index, .. } => Some(*current_frame_index),
            State::CheckExit { current_frame_index, .. } => Some(*current_frame_index),
            State::Finished => None,
            State::Aborted { .. } => None,
        }
    }
}

/// Saturating nanosecond addition (see [`spec_sat_add`]).
fn sat_add(a: u64, b: u64) -> (r: u64)
    ensures
        r == spec_sat_add(a, b),
{
    if b > u64::MAX - a {
        u64::MAX
    } else {
        a + b
    }
}

/// The motion sequencing state machine: a fixed sequence of conditioned
/// segments and a single current phase, initially
/// `CheckEntry { 0, 0 }`.
#[derive(Debug)]
pub struct MotionInterpolator {
    frames: Vec<ConditionedSpline>,
    current_state: State,
}

impl MotionInterpolator {
    /// The segment sequence, as the contracts speak of it.
    pub closed spec fn frames_spec(self) -> Seq<ConditionedSpline> {
        self.frames@
    }

    /// The current phase, as the contracts speak of it.
    pub closed spec fn state_spec(self) -> State {
        self.current_state
    }

    /// Structural validity (see [`spec_machine_wf`]): established by
    /// [`MotionInterpolator::try_from`] and preserved by every method.
    pub open spec fn wf(self) -> bool {
        spec_machine_wf(self.frames_spec(), self.state_spec())
    }

    /// Builds a machine from a declarative motion description: the first
    /// segment runs from the description's initial position to the first
    /// group's keyframes, every later segment from the previous group's
    /// last keyframe position, so consecutive segments are positionally
    /// continuous. Fails on the first group that does not build, with no
    /// partial state.
    #[verifier::loop_isolation(false)]
    pub fn try_from(motion_file: MotionFile) -> (result: Result<
        MotionInterpolator,
        InterpolatorError,
    >)
        ensures
            result is Ok <==> spec_motion_valid(motion_file.motion@),
            result is Ok ==> {
                let machine = result->Ok_0;
                &&& machine.wf()
                &&& machine.state_spec() == (State::CheckEntry {
                    current_frame_index: 0,
                    time_since_start_ns: 0,
                })
                &&& machine.frames_spec().len() == motion_file.motion@.len()
                &&& forall|j: int|
                    0 <= j < motion_file.motion@.len() ==> {
                        let frame = #[trigger] machine.frames_spec()[j];
                        &&& frame.entry_condition == motion_file.motion@[j].entry_condition
                        &&& frame.motion_interrupts == motion_file.motion@[j].motion_interrupts
                        &&& frame.exit_condition == motion_file.motion@[j].exit_condition
                        &&& frame.spline == (TimedSpline {
                            start: spec_frame_start(
                                motion_file.initial_positions,
                                motion_file.motion@,
                                j,
                            ),
                            keyframes: motion_file.motion@[j].keyframes,
                            mode: motion_file.interpolation_mode,
                        })
                    }
                &&& forall|j: int|
                    1 <= j < motion_file.motion@.len()
                        ==> #[trigger] machine.frames_spec()[j].spline.start == machine.frames_spec()[
                        j - 1
                    ].spline.keyframes@.last().positions
            },
            motion_file.motion@.len() == 0 ==> result == Err::<
                MotionInterpolator,
                InterpolatorError,
            >(InterpolatorError::EmptyMotion),
            motion_file.motion@.len() > 0 && !spec_motion_valid(motion_file.motion@)
                ==> result is Err && result->Err_0 == spec_group_error(
                motion_file.motion@[spec_first_invalid(motion_file.motion@)].keyframes@,
            ),
    {
        let ghost motion_seq = motion_file.motion@;
        let MotionFile { initial_positions, interpolation_mode, mut motion } = motion_file;
        proof {
            assert(motion@ == motion_seq);
        }
        let n = motion.len();
        if n == 0 {
            return Err(InterpolatorError::EmptyMotion);
        }
        let mut frames: Vec<ConditionedSpline> = Vec::new();
        let mut start: i64 = initial_positions;
        let mut j: usize = 0;
        while j < n
            invariant
                n == motion_seq.len(),
                motion@ =~= motion_seq.subrange(j as int, n as int),
                0 <= j <= n,
                frames@.len() == j,
                start == spec_frame_start(initial_positions, motion_seq, j as int),
                forall|k: int| 0 <= k < j ==> spec_keyframes_valid(motion_seq[k].keyframes@),
                forall|k: int|
                    0 <= k < j ==> {
                        let frame = #[trigger] frames@[k];
                        &&& frame.entry_condition == motion_seq[k].entry_condition
                        &&& frame.motion_interrupts == motion_seq[k].motion_interrupts
                        &&& frame.exit_condition == motion_seq[k].exit_condition
                        &&& frame.spline == (TimedSpline {
                            start: spec_frame_start(initial_positions, motion_seq, k),
                            keyframes: motion_seq[k].keyframes,
                            mode: interpolation_mode,
                        })
                    },
            decreases n - j,
        {
            let frame = motion.remove(0);
            proof {
                assert(frame == motion_seq[j as int]);
                assert(motion@ =~= motion_seq.subrange(j + 1, n as int));
            }
            let spline = match TimedSpline::try_new_with_start(
                start,
                frame.keyframes,
                interpolation_mode,
            ) {
                Ok(spline) => spline,
                Err(error) => {
                    proof {
                        lemma_first_invalid(motion_seq, j as int);
                    }
                    return Err(error);
                },
            };
            start = spline.end_position();
            frames.push(
                ConditionedSpline {
                    entry_condition: frame.entry_condition,
                    motion_interrupts: frame.motion_interrupts,
                    spline,
                    exit_condition: frame.exit_condition,
                },
            );
            j += 1;
        }
        Ok(
            MotionInterpolator {
                frames,
                current_state: State::CheckEntry { current_frame_index: 0, time_since_start_ns: 0 },
            },
        )
    }

    /// The current phase; callers distinguish a successful finish from an
    /// abort with this, not with the completion flag alone.
    pub fn current_state(&self) -> (state: State)
        ensures
            state == self.state_spec(),
    {
        self.current_state
    }

    /// Combines this tick's interrupt verdicts (see
    /// [`spec_interrupt_verdict`]): `Abort` freezes the machine at the
    /// current position and ends the tick, `Wait` ends the tick with no
    /// change at all, `Continue` lets the tick proceed.
    fn check_continuous_conditions(&mut self, condition_input: &ConditionInput) -> (return_state:
        ReturnState)
        requires
            old(self).wf(),
        ensures
            final(self).wf(),
            final(self).frames_spec() == old(self).frames_spec(),
            match spec_interrupt_verdict(
                old(self).frames_spec(),
                old(self).state_spec(),
                condition_input.signals@,
            ) {
                Response::Abort => return_state is Return && final(self).state_spec()
                    == spec_abort_state(old(self).frames_spec(), old(self).state_spec()),
                Response::Wait => return_state is Return && final(self).state_spec() == old(
                    self,
                ).state_spec(),
                Response::Continue => return_state is Continue && final(self).state_spec() == old(
                    self,
                ).state_spec(),
            },
    {
        let frame_index = match self.current_state.current_frame_index() {
            Some(frame_index) => frame_index,
            None => {
                return ReturnState::Continue;
            },
        };
        let interrupts = &self.frames[frame_index].motion_interrupts;
        let n = interrupts.len();
        let mut verdict = Response::Continue;
        let mut idx: usize = 0;
        proof {
            assert(interrupts@.subrange(0, 0) =~= Seq::<ContinuousConditionType>::empty());
        }
        while idx < n
            invariant
                n == interrupts@.len(),
                0 <= idx <= n,
                verdict == spec_combined_verdict(
                    interrupts@.subrange(0, idx as int),
                    condition_input.signals@,
                ),
            decreases n - idx,
        {
            let current = interrupts[idx].evaluate(condition_input);
            proof {
                assert(interrupts@.subrange(0, idx + 1).drop_last() =~= interrupts@.subrange(
                    0,
                    idx as int,
                ));
                assert(interrupts@.subrange(0, idx + 1).last() == interrupts@[idx as int]);
            }
            verdict = match (&verdict, &current) {
                (Response::Abort, _) => Response::Abort,
                (_, Response::Abort) => Response::Abort,
                (Response::Wait, _) => Response::Wait,
                (_, Response::Wait) => Response::Wait,
                _ => verdict,
            };
            idx += 1;
        }
        proof {
            assert(interrupts@.subrange(0, n as int) =~= interrupts@);
        }
        match verdict {
            Response::Abort => {
                let at_position = self.value();
                self.current_state = State::Aborted { at_position };
                ReturnState::Return
            },
            Response::Wait => ReturnState::Return,
            Response::Continue => ReturnState::Continue,
        }
    }

    /// Phase advancement for one tick (see [`spec_advance`]); reached only
    /// when the combined interrupt verdict is `Continue`.
    fn advance_state(&mut self, time_step_ns: u64, condition_input: &ConditionInput)
        requires
            old(self).wf(),
        ensures
            final(self).wf(),
            final(self).frames_spec() == old(self).frames_spec(),
            final(self).state_spec() == spec_advance(
                old(self).frames_spec(),
                old(self).state_spec(),
                time_step_ns,
                condition_input.signals@,
            ),
    {
        self.current_state = match self.current_state {
            State::CheckEntry { current_frame_index, time_since_start_ns } => {
                let response = match &self.frames[current_frame_index].entry_condition {
                    Some(condition) => Some(
                        condition.evaluate(condition_input).with_timeout(
                            condition.timeout(time_since_start_ns),
                        ),
                    ),
                    None => None,
                };
                match response {
                    Some(Response::Abort) => State::Aborted { at_position: self.value() },
                    Some(Response::Wait) => State::CheckEntry {
                        current_frame_index,
                        time_since_start_ns: sat_add(time_since_start_ns, time_step_ns),
                    },
                    _ => State::InterpolateSpline { current_frame_index, time_since_start_ns: 0 },
                }
            },
            State::InterpolateSpline { current_frame_index, time_since_start_ns } => {
                if time_since_start_ns >= self.frames[current_frame_index].spline.total_duration() {
                    State::CheckExit { current_frame_index, time_since_start_ns: 0 }
                } else {
                    State::InterpolateSpline {
                        current_frame_index,
                        time_since_start_ns: sat_add(time_since_start_ns, time_step_ns),
                    }
                }
            },
            State::CheckExit { current_frame_index, time_since_start_ns } => {
                let response = match &self.frames[current_frame_index].exit_condition {
                    Some(condition) => Some(
                        condition.evaluate(condition_input).with_timeout(
                            condition.timeout(time_since_start_ns),
                        ),
                    ),
                    None => None,
                };
                match response {
                    Some(Response::Abort) => State::Aborted { at_position: self.value() },
                    Some(Response::Wait) => State::CheckExit {
                        current_frame_index,
                        time_since_start_ns: sat_add(time_since_start_ns, time_step_ns),
                    },
                    _ => {
                        if current_frame_index < self.frames.len() - 1 {
                            State::CheckEntry {
                                current_frame_index: current_frame_index + 1,
                                time_since_start_ns: 0,
                            }
                        } else {
                            State::Finished
                        }
                    },
                }
            },
            other_state => other_state,
        };
    }

    /// One tick: combine this tick's interrupt verdicts, then — only when
    /// they allow it — advance the phase by `time_step_ns` under the
    /// condition-input snapshot (see [`spec_next_state`]). The segment
    /// sequence never changes.
    pub fn advance_by(&mut self, time_step_ns: u64, condition_input: &ConditionInput)
        requires
            old(self).wf(),
        ensures
            final(self).wf(),
            final(self).frames_spec() == old(self).frames_spec(),
            final(self).state_spec() == spec_next_state(
                old(self).frames_spec(),
                old(self).state_spec(),
                time_step_ns,
                condition_input.signals@,
            ),
    {
        match self.check_continuous_conditions(condition_input) {
            ReturnState::Return => {},
            ReturnState::Continue => {
                self.advance_state(time_step_ns, condition_input);
            },
        }
    }

    /// Whether the machine reached a terminal phase — a successful finish
    /// or an abort. The caller's signal to stop driving ticks.
    pub fn is_finished(&self) -> (finished: bool)
        ensures
            finished == spec_is_finished(self.state_spec()),
    {
        match self.current_state {
            State::Finished => true,
            State::Aborted { .. } => true,
            _ => false,
        }
    }

    /// The commanded position for the current phase (see [`spec_value`]).
    /// A pure query: it can be called any number of times between ticks
    /// and always yields the same result.
    pub fn value(&self) -> (position: i64)
        requires
            self.wf(),
        ensures
            position as int == spec_value(self.frames_spec(), self.state_spec()),
    {
        match self.current_state {
            State::CheckEntry { current_frame_index, .. } => self.frames[
                current_frame_index
            ].spline.start_position(),
            State::InterpolateSpline { current_frame_index, time_since_start_ns } => self.frames[
                current_frame_index
            ].spline.value_at(time_since_start_ns),
            State::CheckExit { current_frame_index, .. } => self.frames[
                current_frame_index
            ].spline.end_position(),
            State::Finished => self.frames[self.frames.len() - 1].spline.end_position(),
            State::Aborted { at_position } => at_position,
        }
    }

    /// Restores the phase to `CheckEntry { 0, 0 }`, whatever the prior
    /// phase; the segment sequence is untouched. Replays the same motion
    /// from the beginning.
    pub fn reset(&mut self)
        requires
            old(self).wf(),
        ensures
            final(self).wf(),
            final(self).frames_spec() == old(self).frames_spec(),
            final(self).state_spec() == (State::CheckEntry {
                current_frame_index: 0,
                time_since_start_ns: 0,
            }),
    {
        self.current_state = State::CheckEntry { current_frame_index: 0, time_since_start_ns: 0 };
    }

    /// Overrides the first segment's start position with the caller's
    /// value (typically the robot's measured pose), so the first segment
    /// interpolates from where the robot truly is. Later segments are
    /// untouched: they chain from the first segment's end, not its start.
    pub fn set_initial_positions(&mut self, position: i64)
        requires
            old(self).wf(),
        ensures
            final(self).wf(),
            final(self).state_spec() == old(self).state_spec(),
            final(self).frames_spec().len() == old(self).frames_spec().len(),
            final(self).frames_spec()[0].spline.start == position,
            final(self).frames_spec()[0].spline.keyframes == old(self).frames_spec()[0].spline.keyframes,
            final(self).frames_spec()[0].spline.mode == old(self).frames_spec()[0].spline.mode,
            final(self).frames_spec()[0].entry_condition == old(
                self,
            ).frames_spec()[0].entry_condition,
            final(self).frames_spec()[0].motion_interrupts == old(
                self,
            ).frames_spec()[0].motion_interrupts,
            final(self).frames_spec()[0].exit_condition == old(
                self,
            ).frames_spec()[0].exit_condition,
            forall|j: int|
                1 <= j < old(self).frames_spec().len() ==> final(self).frames_spec()[j] == old(
                    self,
                ).frames_spec()[j],
    {
        let mut first = self.frames.remove(0);
        first.spline.set_initial_positions(position);
        self.frames.insert(0, first);
        proof {
            assert(forall|j: int|
                1 <= j < old(self).frames@.len() ==> self.frames@[j] == old(self).frames@[j]);
        }
    }
}

} // verus!
