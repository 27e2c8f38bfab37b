use esp32_sensors::pir::{LedChange, PirAction, PirMonitor, PirState};

fn keep() -> PirAction {
    PirAction { leds: LedChange::Keep, delay_ms: 100 }
}

#[test]
fn ignores_first_three_triggers() {
    let mut monitor = PirMonitor::new();
    assert_eq!(monitor.on_reading(true), keep());
    assert_eq!(monitor.on_reading(false), keep());
    assert_eq!(monitor.on_reading(true), keep());
    assert_eq!(monitor.on_reading(true), keep());
    assert_eq!(monitor.state(), PirState::Waiting { triggers: 3 });
    assert_eq!(
        monitor.on_reading(true),
        PirAction { leds: LedChange::On, delay_ms: 100 }
    );
    assert_eq!(monitor.state(), PirState::Lit { remaining_ms: 6_000 });
}

fn lit_monitor() -> PirMonitor {
    let mut monitor = PirMonitor::new();
    for _ in 0..4 {
        monitor.on_reading(true);
    }
    monitor
}

#[test]
fn stays_lit_for_sixty_quiet_readings() {
    let mut monitor = lit_monitor();
    for _ in 0..59 {
        assert_eq!(monitor.on_reading(false), keep());
    }
    assert_eq!(monitor.state(), PirState::Lit { remaining_ms: 100 });
    assert_eq!(
        monitor.on_reading(false),
        PirAction { leds: LedChange::Off, delay_ms: 0 }
    );
    assert_eq!(monitor.state(), PirState::Waiting { triggers: 0 });
}

#[test]
fn motion_while_lit_resets_to_three_seconds() {
    let mut monitor = lit_monitor();
    for _ in 0..10 {
        monitor.on_reading(false);
    }
    assert_eq!(monitor.on_reading(true), keep());
    assert_eq!(monitor.state(), PirState::Lit { remaining_ms: 3_000 });
    for _ in 0..29 {
        assert_eq!(monitor.on_reading(false), keep());
    }
    assert_eq!(monitor.on_reading(false).leds, LedChange::Off);
}

#[test]
fn quiet_readings_keep_waiting() {
    let mut monitor = PirMonitor::new();
    for _ in 0..100 {
        assert_eq!(monitor.on_reading(false), keep());
    }
    assert_eq!(monitor.state(), PirState::Waiting { triggers: 0 });
}
