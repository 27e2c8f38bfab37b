//! The decisions of the PIR motion sensor that lights four LEDs: readings
//! are taken every 100 ms, a few early triggers are ignored as false
//! positives, and the LEDs stay on for a while after the last motion.
//!
//! The owner reads the sensor, reports the reading, applies the returned
//! LED change, waits the returned delay, and reads again.

use vstd::prelude::*;

verus! {

/// The wait before the first reading, in milliseconds.
pub const STARTUP_DELAY_MS: u64 = 3_000;

/// The wait between two readings, in milliseconds.
pub const POLL_INTERVAL_MS: u64 = 100;

/// How many high readings are ignored before the LEDs are lit.
pub const IGNORED_TRIGGERS: u8 = 3;

/// How long the LEDs stay on after they are first lit, in milliseconds.
pub const FIRST_LIGHT_MS: u32 = 6_000;

/// How long the LEDs stay on after motion is seen while lit, in milliseconds.
pub const MOTION_RESET_MS: u32 = 3_000;

/// The state of the sensor loop.
#[derive(Clone, Copy, Debug, PartialEq, Eq)]
pub enum PirState {
    /// The LEDs are off; `triggers` high readings have been ignored so far.
    Waiting { triggers: u8 },
    /// The LEDs are on and go off after `remaining_ms` more milliseconds
    /// without motion.
    Lit { remaining_ms: u32 },
}

/// A change to apply to the LEDs.
#[derive(Clone, Copy, Debug, PartialEq, Eq)]
pub enum LedChange {
    Keep,
    On,
    Off,
}

/// What to do after a reading: change the LEDs, then wait before reading again.
#[derive(Clone, Copy, Debug, PartialEq, Eq)]
pub struct PirAction {
    pub leds: LedChange,
    pub delay_ms: u64,
}

/// The transition on one reading of the sensor (`true`: motion).
pub open spec fn pir_next(s: PirState, motion: bool) -> (PirState, PirAction) {
    match s {
        PirState::Waiting { triggers } => {
            if !motion {
                (s, PirAction { leds: LedChange::Keep, delay_ms: POLL_INTERVAL_MS })
            } else if triggers < IGNORED_TRIGGERS {
                (
                    PirState::Waiting { triggers: (triggers + 1) as u8 },
                    PirAction { leds: LedChange::Keep, delay_ms: POLL_INTERVAL_MS },
                )
            } else {
                (
                    PirState::Lit { remaining_ms: FIRST_LIGHT_MS },
                    PirAction { leds: LedChange::On, delay_ms: POLL_INTERVAL_MS },
                )
            }
        },
        PirState::Lit { remaining_ms } => {
            if motion {
                (
                    PirState::Lit { remaining_ms: MOTION_RESET_MS },
                    PirAction { leds: LedChange::Keep, delay_ms: POLL_INTERVAL_MS },
                )
            } else if remaining_ms <= POLL_INTERVAL_MS {
                (
                    PirState::Waiting { triggers: 0 },
                    PirAction { leds: LedChange::Off, delay_ms: 0 },
                )
            } else {
                (
                    PirState::Lit { remaining_ms: (remaining_ms - POLL_INTERVAL_MS) as u32 },
                    PirAction { leds: LedChange::Keep, delay_ms: POLL_INTERVAL_MS },
                )
            }
        },
    }
}

/// What holds of every state the loop reaches.
pub open spec fn pir_well_formed(s: PirState) -> bool {
    match s {
        PirState::Waiting { triggers } => triggers <= IGNORED_TRIGGERS,
        PirState::Lit { remaining_ms } => {
            &&& 0 < remaining_ms <= FIRST_LIGHT_MS
            &&& remaining_ms % (POLL_INTERVAL_MS as u32) == 0
        },
    }
}

/// The state after `lows` readings without motion.
pub open spec fn after_quiet_readings(s: PirState, lows: nat) -> PirState
    decreases lows,
{
    if lows == 0 {
        s
    } else {
        after_quiet_readings(pir_next(s, false).0, (lows - 1) as nat)
    }
}

/// Every reached state is well formed.
pub proof fn lemma_pir_well_formed_preserved(s: PirState, motion: bool)
    requires
        pir_well_formed(s),
    ensures
        pir_well_formed(pir_next(s, motion).0),
{
}

/// Once lit with `remaining_ms` left, the LEDs stay on through fewer than
/// `remaining_ms / 100` quiet readings and are off after exactly that many.
pub proof fn lemma_quiet_readings_until_off(remaining_ms: u32, lows: nat)
    requires
        pir_well_formed(PirState::Lit { remaining_ms }),
    ensures
        lows < remaining_ms / (POLL_INTERVAL_MS as u32) ==> after_quiet_readings(
            PirState::Lit { remaining_ms },
            lows,
        ) == (PirState::Lit { remaining_ms: (remaining_ms - lows * 100) as u32 }),
        lows == remaining_ms / (POLL_INTERVAL_MS as u32) ==> after_quiet_readings(
            PirState::Lit { remaining_ms },
            lows,
        ) == (PirState::Waiting { triggers: 0 }),
    decreases lows,
{
    if lows > 0 && lows <= remaining_ms / (POLL_INTERVAL_MS as u32) {
        if remaining_ms <= POLL_INTERVAL_MS {
            assert(remaining_ms == 100);
            assert(lows == 1);
            assert(after_quiet_readings(PirState::Waiting { triggers: 0 }, 0) == PirState::Waiting {
                triggers: 0,
            });
        } else {
            let next = (remaining_ms - 100) as u32;
            assert(pir_next(PirState::Lit { remaining_ms }, false).0 == PirState::Lit {
                remaining_ms: next,
            });
            assert(next / 100 == remaining_ms / 100 - 1);
            lemma_quiet_readings_until_off(next, (lows - 1) as nat);
        }
    }
}

/// The LEDs are lit only by a high reading once the ignored triggers are
/// used up, and only switched off by a quiet reading with at most one poll
/// interval left.
pub proof fn lemma_led_changes(s: PirState, motion: bool)
    requires
        pir_well_formed(s),
    ensures
        pir_next(s, motion).1.leds == LedChange::On <==> (motion && s == (PirState::Waiting {
            triggers: IGNORED_TRIGGERS,
        })),
        pir_next(s, motion).1.leds == LedChange::Off <==> (!motion && (s matches PirState::Lit {
            remaining_ms,
        } && remaining_ms <= POLL_INTERVAL_MS)),
{
}

/// The sensor loop of the PIR motion sensor.
pub struct PirMonitor {
    state: PirState,
}

impl View for PirMonitor {
    type V = PirState;

    closed spec fn view(&self) -> PirState {
        self.state
    }
}

impl PirMonitor {
    #[verifier::type_invariant]
    closed spec fn monitor_is_well_formed(self) -> bool {
        pir_well_formed(self.state)
    }

    /// A loop with the LEDs off and no trigger seen.
    pub fn new() -> (monitor: Self)
        ensures
            monitor@ == (PirState::Waiting { triggers: 0 }),
    {
        PirMonitor { state: PirState::Waiting { triggers: 0 } }
    }

    /// The current state.
    pub fn state(&self) -> (state: PirState)
        ensures
            state == self@,
            pir_well_formed(state),
    {
        proof {
            use_type_invariant(self);
        }
        self.state
    }

    /// Reports a reading (`true`: motion) and returns what to do next.
    pub fn on_reading(&mut self, motion: bool) -> (action: PirAction)
        ensures
            (final(self)@, action) == pir_next(old(self)@, motion),
    {
        proof {
            use_type_invariant(&*self);
            lemma_pir_well_formed_preserved(self.state, motion);
        }
        let (next, action) = match self.state {
            PirState::Waiting { triggers } => {
                if !motion {
                    (self.state, PirAction { leds: LedChange::Keep, delay_ms: POLL_INTERVAL_MS })
                } else if triggers < IGNORED_TRIGGERS {
                    (
                        PirState::Waiting { triggers: triggers + 1 },
                        PirAction { leds: LedChange::Keep, delay_ms: POLL_INTERVAL_MS },
                    )
                } else {
                    (
                        PirState::Lit { remaining_ms: FIRST_LIGHT_MS },
                        PirAction { leds: LedChange::On, delay_ms: POLL_INTERVAL_MS },
                    )
                }
            },
            PirState::Lit { remaining_ms } => {
                if motion {
                    (
                        PirState::Lit { remaining_ms: MOTION_RESET_MS },
                        PirAction { leds: LedChange::Keep, delay_ms: POLL_INTERVAL_MS },
                    )
                } else if remaining_ms as u64 <= POLL_INTERVAL_MS {
                    (PirState::Waiting { triggers: 0 }, PirAction { leds: LedChange::Off, delay_ms: 0 })
                } else {
                    (
                        PirState::Lit { remaining_ms: remaining_ms - 100 },
                        PirAction { leds: LedChange::Keep, delay_ms: POLL_INTERVAL_MS },
                    )
                }
            },
        };
        self.state = next;
        action
    }
}

} // verus!
