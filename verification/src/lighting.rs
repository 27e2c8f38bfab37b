//! The decisions of the motion-triggered LED strip: how long the lights stay
//! on, when the motion detector is read, and how long each sleep lasts.
//!
//! The sequence is a state machine. Its owner performs the pending action
//! (switching the lights, reading the detector, sleeping) and reports back
//! what happened; the machine answers with the next action. All durations
//! are in milliseconds.

use vstd::prelude::*;

verus! {

/// How long the lights stay on once motion has been seen.
pub const LIGHT_DURATION: u64 = 15_000;

/// How much shorter than the light duration the first countdown is.
pub const GRACE_PERIOD: u64 = 4_000;

/// How often the motion detector is read while the lights are on.
pub const STEP: u64 = 100;

/// The longest single sleep, and the check interval used when a profile's
/// step is zero.
pub const CHECK_INTERVAL: u64 = 25;

/// The timing of one lighting sequence.
#[derive(Clone, Copy, Debug, PartialEq, Eq)]
pub struct LightingProfile {
    pub light_duration: u64,
    pub grace_period: u64,
    pub step: u64,
}

impl LightingProfile {
    pub fn new(light_duration: u64, grace_period: u64, step: u64) -> (profile: Self)
        ensures
            profile.light_duration == light_duration,
            profile.grace_period == grace_period,
            profile.step == step,
    {
        LightingProfile { light_duration, grace_period, step }
    }
}

impl Default for LightingProfile {
    fn default() -> (profile: Self)
        ensures
            profile.light_duration == LIGHT_DURATION,
            profile.grace_period == GRACE_PERIOD,
            profile.step == STEP,
    {
        LightingProfile::new(LIGHT_DURATION, GRACE_PERIOD, STEP)
    }
}

/// The time between two readings of the detector for a given step.
pub open spec fn interval_for(step: u64) -> u64 {
    if step == 0 {
        CHECK_INTERVAL
    } else {
        step
    }
}

/// Keeps track of when the motion detector is due to be read.
#[derive(Clone, Copy, Debug, PartialEq, Eq)]
pub struct MotionMonitor {
    pub step: u64,
    pub time_until_next_check: u64,
}

/// The monitor after `duration` milliseconds have passed.
pub open spec fn advanced(monitor: MotionMonitor, duration: u64) -> MotionMonitor {
    MotionMonitor {
        step: monitor.step,
        time_until_next_check: if duration >= monitor.time_until_next_check {
            0
        } else {
            (monitor.time_until_next_check - duration) as u64
        },
    }
}

/// The monitor right after the detector has been read.
pub open spec fn checked(monitor: MotionMonitor) -> MotionMonitor {
    MotionMonitor { step: monitor.step, time_until_next_check: interval_for(monitor.step) }
}

/// How long the monitor lets a sleep last before the next reading.
pub open spec fn until_check(monitor: MotionMonitor) -> u64 {
    if monitor.step == 0 {
        CHECK_INTERVAL
    } else {
        monitor.time_until_next_check
    }
}

impl MotionMonitor {
    /// A monitor whose first reading is due at once.
    pub fn new(step: u64) -> (monitor: Self)
        ensures
            monitor.step == step,
            monitor.time_until_next_check == 0,
    {
        MotionMonitor { step, time_until_next_check: 0 }
    }

    /// Whether the detector is due to be read.
    pub fn should_check(&self) -> (due: bool)
        ensures
            due == (self.time_until_next_check == 0),
    {
        self.time_until_next_check == 0
    }

    /// Records that the detector was read and reported `detected`; the next
    /// reading is due one interval later. Returns the reading.
    pub fn check(&mut self, detected: bool) -> (reading: bool)
        ensures
            reading == detected,
            *final(self) == checked(*old(self)),
    {
        self.time_until_next_check = self.interval();
        detected
    }

    /// Lets `duration` milliseconds pass.
    pub fn advance(&mut self, duration: u64)
        ensures
            *final(self) == advanced(*old(self), duration),
    {
        if duration >= self.time_until_next_check {
            self.time_until_next_check = 0;
        } else {
            self.time_until_next_check = self.time_until_next_check - duration;
        }
    }

    /// How long a sleep may last before the next reading is due.
    pub fn remaining_until_check(&self) -> (limit: u64)
        ensures
            limit == until_check(*self),
    {
        if self.step == 0 {
            CHECK_INTERVAL
        } else {
            self.time_until_next_check
        }
    }

    /// The time between two readings.
    pub fn interval(&self) -> (interval: u64)
        ensures
            interval == interval_for(self.step),
    {
        if self.step == 0 {
            CHECK_INTERVAL
        } else {
            self.step
        }
    }
}

/// The length of the next sleep when `remaining` milliseconds of the hold
/// are left: at most `CHECK_INTERVAL`, and never past the next reading.
pub open spec fn chunk_for(remaining: u64, monitor: MotionMonitor) -> u64 {
    let chunk = if remaining < CHECK_INTERVAL {
        remaining
    } else {
        CHECK_INTERVAL
    };
    let limit = until_check(monitor);
    if limit != 0 && limit < chunk {
        limit
    } else {
        chunk
    }
}

pub fn next_chunk_duration(remaining: u64, monitor: &MotionMonitor) -> (chunk: u64)
    ensures
        chunk == chunk_for(remaining, *monitor),
        remaining > 0 ==> 0 < chunk <= remaining && chunk <= CHECK_INTERVAL,
{
    let mut chunk = if remaining < CHECK_INTERVAL {
        remaining
    } else {
        CHECK_INTERVAL
    };
    let limit = monitor.remaining_until_check();
    if limit != 0 && limit < chunk {
        chunk = limit;
    }
    chunk
}

/// `duration` rounded up to a whole number of steps (saturating at the
/// largest `u64`); unchanged when the step is zero.
pub open spec fn round_up_to_step(duration: u64, step: u64) -> u64 {
    if step == 0 || duration % step == 0 {
        duration
    } else if (duration / step) * step + step > u64::MAX {
        u64::MAX
    } else {
        ((duration / step) * step + step) as u64
    }
}

/// How long the lights are held on: the first countdown lasts the light
/// duration less the grace period, a countdown restarted by motion lasts the
/// whole light duration; either is rounded up to whole steps.
pub open spec fn hold_duration(profile: LightingProfile, restarted: bool) -> u64 {
    let base = if restarted {
        profile.light_duration
    } else if profile.light_duration >= profile.grace_period {
        (profile.light_duration - profile.grace_period) as u64
    } else {
        0
    };
    round_up_to_step(base, profile.step)
}

fn round_up(duration: u64, step: u64) -> (rounded: u64)
    ensures
        rounded == round_up_to_step(duration, step),
{
    if step == 0 || duration % step == 0 {
        duration
    } else {
        proof {
            assert((duration / step) * step <= duration) by (nonlinear_arith)
                requires
                    step > 0,
            ;
        }
        let whole = (duration / step) * step;
        if whole > u64::MAX - step {
            u64::MAX
        } else {
            whole + step
        }
    }
}

/// How a lighting sequence ended.
#[derive(Clone, Copy, Debug, PartialEq, Eq)]
pub enum Outcome {
    /// No more motion: the lights were switched off.
    Cleared,
    /// Switching the lights failed.
    Failed,
}

/// What the owner of a sequence must do next.
#[derive(Clone, Copy, Debug, PartialEq, Eq)]
pub enum LightAction {
    /// Set the lights to the target brightness.
    TurnOn,
    /// Switch the lights off.
    TurnOff,
    /// Read the motion detector.
    CheckMotion,
    /// Sleep for this many milliseconds.
    Sleep(u64),
    /// The sequence is over.
    Finish(Outcome),
}

/// What happened when the owner performed the pending action.
#[derive(Clone, Copy, Debug, PartialEq, Eq)]
pub enum LightEvent {
    /// The lights were switched on or off; `true` when that succeeded.
    LightUpdated(bool),
    /// The detector was read; `true` when it saw motion.
    MotionChecked(bool),
    /// The requested sleep is over.
    Slept,
}

/// The state of a lighting sequence.
#[derive(Clone, Copy, Debug, PartialEq, Eq)]
pub struct SequenceState {
    pub profile: LightingProfile,
    pub monitor: MotionMonitor,
    /// Whether motion has restarted the countdown at least once.
    pub restarted: bool,
    /// The length of the current countdown.
    pub hold: u64,
    /// The time slept since the current countdown began.
    pub elapsed: u64,
    /// The action the owner must perform next.
    pub pending: LightAction,
}

/// The next action while the lights are held on.
pub open spec fn hold_action(hold: u64, elapsed: u64, monitor: MotionMonitor) -> LightAction {
    if elapsed >= hold {
        LightAction::TurnOff
    } else if monitor.time_until_next_check == 0 {
        LightAction::CheckMotion
    } else {
        LightAction::Sleep(chunk_for((hold - elapsed) as u64, monitor))
    }
}

/// The first state of a sequence: the lights are to be switched on.
pub open spec fn initial_state(profile: LightingProfile) -> SequenceState {
    SequenceState {
        profile,
        monitor: MotionMonitor { step: profile.step, time_until_next_check: 0 },
        restarted: false,
        hold: 0,
        elapsed: 0,
        pending: LightAction::TurnOn,
    }
}

/// The transition of a sequence on `event`. An event that does not answer
/// the pending action leaves the state unchanged.
pub open spec fn next_state(s: SequenceState, event: LightEvent) -> SequenceState {
    match (s.pending, event) {
        (LightAction::TurnOn, LightEvent::LightUpdated(ok)) => {
            if ok {
                let hold = hold_duration(s.profile, s.restarted);
                SequenceState { hold, elapsed: 0, pending: hold_action(hold, 0, s.monitor), ..s }
            } else {
                SequenceState { pending: LightAction::Finish(Outcome::Failed), ..s }
            }
        },
        (LightAction::CheckMotion, LightEvent::MotionChecked(detected)) => {
            let monitor = checked(s.monitor);
            if detected {
                SequenceState { monitor, restarted: true, pending: LightAction::TurnOn, ..s }
            } else {
                SequenceState {
                    monitor,
                    pending: LightAction::Sleep(chunk_for((s.hold - s.elapsed) as u64, monitor)),
                    ..s
                }
            }
        },
        (LightAction::Sleep(chunk), LightEvent::Slept) => {
            let elapsed = (s.elapsed + chunk) as u64;
            let monitor = advanced(s.monitor, chunk);
            SequenceState { elapsed, monitor, pending: hold_action(s.hold, elapsed, monitor), ..s }
        },
        (LightAction::TurnOff, LightEvent::LightUpdated(ok)) => {
            SequenceState {
                pending: LightAction::Finish(
                    if ok {
                        Outcome::Cleared
                    } else {
                        Outcome::Failed
                    },
                ),
                ..s
            }
        },
        _ => s,
    }
}

/// Whether `event` answers the pending action of `s`.
pub open spec fn answers(s: SequenceState, event: LightEvent) -> bool {
    match (s.pending, event) {
        (LightAction::TurnOn, LightEvent::LightUpdated(_)) => true,
        (LightAction::TurnOff, LightEvent::LightUpdated(_)) => true,
        (LightAction::CheckMotion, LightEvent::MotionChecked(_)) => true,
        (LightAction::Sleep(_), LightEvent::Slept) => true,
        _ => false,
    }
}

/// What holds of every state that a sequence can reach.
pub open spec fn well_formed(s: SequenceState) -> bool {
    &&& s.monitor.step == s.profile.step
    &&& s.monitor.time_until_next_check <= interval_for(s.monitor.step)
    &&& s.elapsed <= s.hold
    &&& match s.pending {
        LightAction::CheckMotion => {
            &&& s.hold == hold_duration(s.profile, s.restarted)
            &&& s.elapsed < s.hold
            &&& s.monitor.time_until_next_check == 0
        },
        LightAction::Sleep(chunk) => {
            &&& s.hold == hold_duration(s.profile, s.restarted)
            &&& 0 < chunk <= CHECK_INTERVAL
            &&& chunk <= s.hold - s.elapsed
            &&& s.monitor.step != 0 ==> chunk <= s.monitor.time_until_next_check
        },
        LightAction::TurnOff => {
            &&& s.hold == hold_duration(s.profile, s.restarted)
            &&& s.elapsed == s.hold
        },
        _ => true,
    }
}

/// A measure of the work left before the sequence ends, when no more motion
/// is seen.
pub open spec fn remaining_work(s: SequenceState) -> nat {
    match s.pending {
        LightAction::Finish(_) => 0,
        LightAction::TurnOff => 1,
        LightAction::Sleep(_) => (2 + 2 * (s.hold - s.elapsed)) as nat,
        LightAction::CheckMotion => (3 + 2 * (s.hold - s.elapsed)) as nat,
        LightAction::TurnOn => (4 + 2 * 0x1_0000_0000_0000_0000int) as nat,
    }
}

proof fn lemma_chunk_bounds(remaining: u64, monitor: MotionMonitor)
    requires
        remaining > 0,
    ensures
        0 < chunk_for(remaining, monitor) <= remaining,
        chunk_for(remaining, monitor) <= CHECK_INTERVAL,
        monitor.step != 0 && monitor.time_until_next_check != 0 ==> chunk_for(remaining, monitor)
            <= monitor.time_until_next_check,
{
}

/// Every state that a sequence reaches is well formed: a sequence starts
/// well formed and every transition keeps it so.
pub proof fn lemma_well_formed_preserved(s: SequenceState, event: LightEvent)
    requires
        well_formed(s),
    ensures
        well_formed(next_state(s, event)),
{
    let n = next_state(s, event);
    match (s.pending, event) {
        (LightAction::TurnOn, LightEvent::LightUpdated(true)) => {
            if n.hold > 0 && s.monitor.time_until_next_check != 0 {
                lemma_chunk_bounds(n.hold, s.monitor);
            }
        },
        (LightAction::CheckMotion, LightEvent::MotionChecked(false)) => {
            lemma_chunk_bounds((s.hold - s.elapsed) as u64, checked(s.monitor));
        },
        (LightAction::Sleep(chunk), LightEvent::Slept) => {
            if n.elapsed < n.hold && n.monitor.time_until_next_check != 0 {
                lemma_chunk_bounds((n.hold - n.elapsed) as u64, n.monitor);
            }
        },
        _ => {},
    }
}

/// A new sequence is well formed.
pub proof fn lemma_initial_well_formed(profile: LightingProfile)
    ensures
        well_formed(initial_state(profile)),
{
}

/// Without motion the sequence always comes to an end: every answered event
/// other than a detection lowers the remaining work.
pub proof fn lemma_progress_without_motion(s: SequenceState, event: LightEvent)
    requires
        well_formed(s),
        answers(s, event),
        event != LightEvent::MotionChecked(true),
    ensures
        remaining_work(next_state(s, event)) < remaining_work(s),
{
}

/// Motion seen while the lights are on switches them on again and restarts
/// the countdown with the whole light duration.
pub proof fn lemma_motion_restarts_countdown(s: SequenceState)
    requires
        well_formed(s),
        s.pending == LightAction::CheckMotion,
    ensures
        next_state(s, LightEvent::MotionChecked(true)).pending == LightAction::TurnOn,
        next_state(next_state(s, LightEvent::MotionChecked(true)), LightEvent::LightUpdated(true)).hold
            == round_up_to_step(s.profile.light_duration, s.profile.step),
        next_state(next_state(s, LightEvent::MotionChecked(true)), LightEvent::LightUpdated(true)).elapsed
            == 0,
{
}

/// A failure to switch the lights ends the sequence with that failure.
pub proof fn lemma_light_failure_ends_sequence(s: SequenceState)
    requires
        s.pending == LightAction::TurnOn || s.pending == LightAction::TurnOff,
    ensures
        next_state(s, LightEvent::LightUpdated(false)).pending == LightAction::Finish(Outcome::Failed),
{
}

/// The sequence ends cleared only right after the lights were switched off,
/// and they are switched off only once the whole countdown has been slept.
pub proof fn lemma_cleared_only_after_full_countdown(s: SequenceState, event: LightEvent)
    requires
        well_formed(s),
        s.pending != LightAction::Finish(Outcome::Cleared),
        next_state(s, event).pending == LightAction::Finish(Outcome::Cleared),
    ensures
        s.pending == LightAction::TurnOff,
        event == LightEvent::LightUpdated(true),
        s.elapsed == s.hold,
        s.hold == hold_duration(s.profile, s.restarted),
{
}

/// A finished sequence stays finished.
pub proof fn lemma_finished_is_final(s: SequenceState, event: LightEvent)
    requires
        s.pending is Finish,
    ensures
        next_state(s, event) == s,
{
}

/// A lighting sequence, from switching the lights on to switching them off.
pub struct LightingSequence {
    state: SequenceState,
}

impl View for LightingSequence {
    type V = SequenceState;

    closed spec fn view(&self) -> SequenceState {
        self.state
    }
}

impl LightingSequence {
    #[verifier::type_invariant]
    closed spec fn sequence_is_well_formed(self) -> bool {
        well_formed(self.state)
    }

    /// Starts a sequence for `profile`; its first action switches the lights on.
    pub fn new(profile: LightingProfile) -> (sequence: Self)
        ensures
            sequence@ == initial_state(profile),
            well_formed(sequence@),
    {
        LightingSequence {
            state: SequenceState {
                profile,
                monitor: MotionMonitor::new(profile.step),
                restarted: false,
                hold: 0,
                elapsed: 0,
                pending: LightAction::TurnOn,
            },
        }
    }

    /// The action the owner must perform next.
    pub fn pending(&self) -> (action: LightAction)
        ensures
            action == self@.pending,
            well_formed(self@),
    {
        proof {
            use_type_invariant(self);
        }
        self.state.pending
    }

    /// The state of the sequence.
    pub fn state(&self) -> (state: SequenceState)
        ensures
            state == self@,
            well_formed(state),
    {
        proof {
            use_type_invariant(self);
        }
        self.state
    }

    fn hold_next(hold: u64, elapsed: u64, monitor: &MotionMonitor) -> (action: LightAction)
        requires
            elapsed <= hold,
        ensures
            action == hold_action(hold, elapsed, *monitor),
    {
        if elapsed >= hold {
            LightAction::TurnOff
        } else if monitor.should_check() {
            LightAction::CheckMotion
        } else {
            LightAction::Sleep(next_chunk_duration(hold - elapsed, monitor))
        }
    }

    /// Reports what happened when the pending action was performed, and
    /// returns the next action.
    pub fn step(&mut self, event: LightEvent) -> (action: LightAction)
        ensures
            final(self)@ == next_state(old(self)@, event),
            action == final(self)@.pending,
            well_formed(final(self)@),
    {
        proof {
            use_type_invariant(&*self);
            lemma_well_formed_preserved(self.state, event);
        }
        let s = self.state;
        let next = match (s.pending, event) {
            (LightAction::TurnOn, LightEvent::LightUpdated(ok)) => {
                if ok {
                    let base = if s.restarted {
                        s.profile.light_duration
                    } else if s.profile.light_duration >= s.profile.grace_period {
                        s.profile.light_duration - s.profile.grace_period
                    } else {
                        0
                    };
                    let hold = round_up(base, s.profile.step);
                    SequenceState {
                        hold,
                        elapsed: 0,
                        pending: Self::hold_next(hold, 0, &s.monitor),
                        ..s
                    }
                } else {
                    SequenceState { pending: LightAction::Finish(Outcome::Failed), ..s }
                }
            },
            (LightAction::CheckMotion, LightEvent::MotionChecked(detected)) => {
                let mut monitor = s.monitor;
                let seen = monitor.check(detected);
                if seen {
                    SequenceState { monitor, restarted: true, pending: LightAction::TurnOn, ..s }
                } else {
                    let chunk = next_chunk_duration(s.hold - s.elapsed, &monitor);
                    SequenceState { monitor, pending: LightAction::Sleep(chunk), ..s }
                }
            },
            (LightAction::Sleep(chunk), LightEvent::Slept) => {
                let elapsed = s.elapsed + chunk;
                let mut monitor = s.monitor;
                monitor.advance(chunk);
                SequenceState {
                    elapsed,
                    monitor,
                    pending: Self::hold_next(s.hold, elapsed, &monitor),
                    ..s
                }
            },
            (LightAction::TurnOff, LightEvent::LightUpdated(ok)) => {
                let outcome = if ok {
                    Outcome::Cleared
                } else {
                    Outcome::Failed
                };
                SequenceState { pending: LightAction::Finish(outcome), ..s }
            },
            _ => s,
        };
        self.state = next;
        next.pending
    }
}

} // verus!
