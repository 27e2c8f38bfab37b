use esp32_sensors::lighting::{
    next_chunk_duration, LightAction, LightEvent, LightingProfile, LightingSequence, MotionMonitor,
    Outcome, CHECK_INTERVAL, GRACE_PERIOD, LIGHT_DURATION, STEP,
};

#[derive(Debug, PartialEq, Eq, Clone, Copy)]
enum Switch {
    On,
    Off,
}

#[derive(Debug, Clone, Copy, PartialEq, Eq)]
enum FailureMode {
    Never,
    FailOnOff,
    FailOnBrightness,
}

struct MockLights {
    mode: FailureMode,
    events: Vec<Switch>,
    is_on: bool,
}

impl MockLights {
    fn record(&mut self, on: bool) {
        if on && !self.is_on {
            self.events.push(Switch::On);
            self.is_on = true;
        } else if !on && self.is_on {
            self.events.push(Switch::Off);
            self.is_on = false;
        }
    }

    fn set_target_brightness(&mut self) -> bool {
        if self.mode == FailureMode::FailOnBrightness {
            return false;
        }
        self.record(true);
        true
    }

    fn light_off(&mut self) -> bool {
        if self.mode == FailureMode::FailOnOff || self.mode == FailureMode::FailOnBrightness {
            return false;
        }
        self.record(false);
        true
    }
}

struct Run {
    outcome: Outcome,
    events: Vec<Switch>,
    delays: Vec<u64>,
    readings: usize,
}

fn run(profile: LightingProfile, script: &[bool], mode: FailureMode) -> Run {
    let mut lights = MockLights { mode, events: Vec::new(), is_on: false };
    let mut delays = Vec::new();
    let mut readings = 0usize;
    let mut sequence = LightingSequence::new(profile);
    let mut action = sequence.pending();
    let mut guard = 0;
    let outcome = loop {
        guard += 1;
        assert!(guard < 1_000_000, "sequence does not end");
        action = match action {
            LightAction::TurnOn => {
                let ok = lights.set_target_brightness();
                sequence.step(LightEvent::LightUpdated(ok))
            }
            LightAction::TurnOff => {
                let ok = lights.light_off();
                sequence.step(LightEvent::LightUpdated(ok))
            }
            LightAction::CheckMotion => {
                let reading = script.get(readings).copied().unwrap_or(false);
                readings += 1;
                sequence.step(LightEvent::MotionChecked(reading))
            }
            LightAction::Sleep(ms) => {
                delays.push(ms);
                sequence.step(LightEvent::Slept)
            }
            LightAction::Finish(outcome) => break outcome,
        };
    };
    Run { outcome, events: lights.events, delays, readings }
}

fn steps_to_clear(profile: LightingProfile) -> usize {
    let remaining = profile.light_duration.saturating_sub(profile.grace_period);
    if profile.step == 0 {
        return 0;
    }
    ((remaining + profile.step - 1) / profile.step) as usize
}

fn count_step_intervals(delays: &[u64], step: u64) -> usize {
    if step == 0 {
        return 0;
    }
    let mut accumulated = 0u64;
    let mut count = 0usize;
    for &delay in delays {
        accumulated += delay;
        while accumulated >= step {
            accumulated -= step;
            count += 1;
        }
    }
    count
}

#[test]
fn turns_off_after_duration_without_motion() {
    let profile = LightingProfile::new(500, 200, 100);
    let steps_needed = steps_to_clear(profile);
    let script = vec![false; steps_needed + 2];
    let run = run(profile, &script, FailureMode::Never);
    assert_eq!(run.outcome, Outcome::Cleared);
    assert_eq!(run.events, vec![Switch::On, Switch::Off]);
    assert_eq!(count_step_intervals(&run.delays, profile.step), steps_needed);
    assert_eq!(steps_needed, 3);
}

#[test]
fn resets_countdown_when_motion_detected_during_window() {
    let profile = LightingProfile::new(500, 200, 100);
    let reset_steps = (profile.light_duration / profile.step) as usize;
    let mut script = vec![false, false, true];
    script.extend(std::iter::repeat(false).take(reset_steps + 2));
    let run = run(profile, &script, FailureMode::Never);
    assert_eq!(run.outcome, Outcome::Cleared);
    assert_eq!(run.events, vec![Switch::On, Switch::Off]);
    assert_eq!(count_step_intervals(&run.delays, profile.step), reset_steps + 2);
}

#[test]
fn immediately_turns_off_when_grace_exceeds_light_duration() {
    let profile = LightingProfile::new(100, 200, 50);
    let run = run(profile, &[false; 4], FailureMode::Never);
    assert_eq!(run.outcome, Outcome::Cleared);
    assert_eq!(run.events, vec![Switch::On, Switch::Off]);
    assert_eq!(count_step_intervals(&run.delays, profile.step), 0);
    assert_eq!(run.readings, 0);
}

#[test]
fn maintains_on_state_while_motion_continues() {
    let profile = LightingProfile::new(800, 200, 100);
    let motion_burst = 6usize;
    let mut script = vec![true; motion_burst];
    script.extend(std::iter::repeat(false).take(steps_to_clear(profile) + 2));
    let run = run(profile, &script, FailureMode::Never);
    assert_eq!(run.outcome, Outcome::Cleared);
    assert_eq!(run.events, vec![Switch::On, Switch::Off]);
    let remaining_after_motion = profile.light_duration - profile.step;
    let cooldown_expected =
        ((remaining_after_motion + profile.step - 1) / profile.step) as usize;
    assert_eq!(
        count_step_intervals(&run.delays, profile.step),
        motion_burst + cooldown_expected
    );
}

#[test]
fn handles_non_divisible_step_sizes() {
    let profile = LightingProfile::new(750, 100, 200);
    let script = vec![false; steps_to_clear(profile) + 2];
    let run = run(profile, &script, FailureMode::Never);
    assert_eq!(run.outcome, Outcome::Cleared);
    assert_eq!(run.events, vec![Switch::On, Switch::Off]);
    assert_eq!(count_step_intervals(&run.delays, profile.step), steps_to_clear(profile));
    assert_eq!(steps_to_clear(profile), 4);
}

#[test]
fn propagates_brightness_errors() {
    let run = run(LightingProfile::default(), &[false], FailureMode::FailOnBrightness);
    assert_eq!(run.outcome, Outcome::Failed);
    assert!(run.events.is_empty());
    assert!(run.delays.is_empty());
}

#[test]
fn propagates_light_off_errors() {
    let profile = LightingProfile::default();
    let script = vec![false; steps_to_clear(profile) + 2];
    let run = run(profile, &script, FailureMode::FailOnOff);
    assert_eq!(run.outcome, Outcome::Failed);
    assert_eq!(run.events, vec![Switch::On]);
}

#[test]
fn default_profile_matches_constants() {
    let profile = LightingProfile::default();
    assert_eq!(profile, LightingProfile::new(LIGHT_DURATION, GRACE_PERIOD, STEP));
    assert_eq!((LIGHT_DURATION, GRACE_PERIOD, STEP, CHECK_INTERVAL), (15_000, 4_000, 100, 25));
}

#[test]
fn default_profile_holds_eleven_seconds_in_chunks_of_at_most_check_interval() {
    let run = run(LightingProfile::default(), &[], FailureMode::Never);
    assert_eq!(run.outcome, Outcome::Cleared);
    assert_eq!(run.delays.iter().sum::<u64>(), 11_000);
    assert!(run.delays.iter().all(|&d| d > 0 && d <= CHECK_INTERVAL));
    // one reading per step of 100 ms
    assert_eq!(run.readings, 110);
}

#[test]
fn restarted_countdown_lasts_whole_light_duration() {
    let profile = LightingProfile::new(1_000, 400, 100);
    // motion at the third reading, after 200 ms
    let run = run(profile, &[false, false, true], FailureMode::Never);
    assert_eq!(run.delays.iter().sum::<u64>(), 200 + 1_000);
}

#[test]
fn zero_step_reads_every_check_interval() {
    let profile = LightingProfile::new(100, 0, 0);
    let run = run(profile, &[], FailureMode::Never);
    assert_eq!(run.delays, vec![25, 25, 25, 25]);
    assert_eq!(run.readings, 4);
}

#[test]
fn events_that_do_not_answer_are_ignored() {
    let mut sequence = LightingSequence::new(LightingProfile::default());
    assert_eq!(sequence.step(LightEvent::Slept), LightAction::TurnOn);
    assert_eq!(sequence.step(LightEvent::MotionChecked(true)), LightAction::TurnOn);
    assert_eq!(sequence.step(LightEvent::LightUpdated(true)), LightAction::CheckMotion);
    assert_eq!(sequence.step(LightEvent::MotionChecked(false)), LightAction::Sleep(25));
    let state = sequence.state();
    assert_eq!(state.hold, 11_000);
    assert_eq!(state.elapsed, 0);
}

#[test]
fn finished_sequence_stays_finished() {
    let mut sequence = LightingSequence::new(LightingProfile::new(0, 0, 100));
    assert_eq!(sequence.step(LightEvent::LightUpdated(true)), LightAction::TurnOff);
    assert_eq!(
        sequence.step(LightEvent::LightUpdated(true)),
        LightAction::Finish(Outcome::Cleared)
    );
    assert_eq!(sequence.step(LightEvent::Slept), LightAction::Finish(Outcome::Cleared));
}

#[test]
fn monitor_counts_down_to_next_check() {
    let mut monitor = MotionMonitor::new(100);
    assert!(monitor.should_check());
    assert!(monitor.check(true));
    assert_eq!(monitor.time_until_next_check, 100);
    assert_eq!(monitor.remaining_until_check(), 100);
    monitor.advance(30);
    assert_eq!(monitor.time_until_next_check, 70);
    assert!(!monitor.should_check());
    monitor.advance(80);
    assert_eq!(monitor.time_until_next_check, 0);
    assert_eq!(monitor.interval(), 100);
    let idle = MotionMonitor::new(0);
    assert_eq!(idle.interval(), CHECK_INTERVAL);
    assert_eq!(idle.remaining_until_check(), CHECK_INTERVAL);
}

#[test]
fn chunks_stop_at_next_check() {
    let mut monitor = MotionMonitor::new(100);
    monitor.check(false);
    monitor.advance(90);
    assert_eq!(next_chunk_duration(1_000, &monitor), 10);
    assert_eq!(next_chunk_duration(5, &monitor), 5);
    monitor.advance(10);
    assert_eq!(next_chunk_duration(1_000, &monitor), 25);
}
