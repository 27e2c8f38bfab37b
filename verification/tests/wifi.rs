use esp32_sensors::wifi::{
    readiness_step, AccessPointLoop, ReadinessCheck, StationLoop, WifiAction, WifiEvent,
};

#[test]
fn station_starts_connects_and_retries() {
    let mut station = StationLoop::new();
    assert_eq!(station.pending(), WifiAction::QueryState);
    assert_eq!(station.step(WifiEvent::State(false)), WifiAction::QueryStarted);
    assert_eq!(station.step(WifiEvent::Started(false)), WifiAction::Start);
    assert_eq!(station.step(WifiEvent::Done), WifiAction::Connect);
    assert_eq!(station.step(WifiEvent::Connected(false)), WifiAction::Delay(5_000));
    assert_eq!(station.step(WifiEvent::Done), WifiAction::QueryState);
    assert_eq!(station.step(WifiEvent::State(false)), WifiAction::QueryStarted);
    assert_eq!(station.step(WifiEvent::Started(true)), WifiAction::Connect);
    assert_eq!(station.step(WifiEvent::Connected(true)), WifiAction::QueryState);
}

#[test]
fn station_waits_while_connected() {
    let mut station = StationLoop::new();
    assert_eq!(station.step(WifiEvent::State(true)), WifiAction::WaitForStop);
    assert_eq!(station.step(WifiEvent::Done), WifiAction::Delay(5_000));
    assert_eq!(station.step(WifiEvent::Done), WifiAction::QueryStarted);
    // an event that does not answer the pending action changes nothing
    assert_eq!(station.step(WifiEvent::Connected(true)), WifiAction::QueryStarted);
}

#[test]
fn access_point_keeps_running() {
    let mut ap = AccessPointLoop::new();
    assert_eq!(ap.step(WifiEvent::State(false)), WifiAction::QueryStarted);
    assert_eq!(ap.step(WifiEvent::Started(false)), WifiAction::Start);
    assert_eq!(ap.step(WifiEvent::Done), WifiAction::QueryState);
    assert_eq!(ap.step(WifiEvent::State(false)), WifiAction::QueryStarted);
    assert_eq!(ap.step(WifiEvent::Started(true)), WifiAction::Delay(500));
    assert_eq!(ap.step(WifiEvent::Done), WifiAction::QueryState);
    assert_eq!(ap.step(WifiEvent::State(true)), WifiAction::WaitForStop);
    assert_eq!(ap.step(WifiEvent::Done), WifiAction::Delay(5_000));
    assert_eq!(ap.step(WifiEvent::Done), WifiAction::QueryStarted);
}

#[test]
fn waits_for_link_then_address() {
    assert_eq!(
        readiness_step(ReadinessCheck::Link, false),
        Some((ReadinessCheck::Link, 500))
    );
    assert_eq!(
        readiness_step(ReadinessCheck::Link, true),
        Some((ReadinessCheck::Address, 0))
    );
    assert_eq!(
        readiness_step(ReadinessCheck::Address, false),
        Some((ReadinessCheck::Address, 100))
    );
    assert_eq!(readiness_step(ReadinessCheck::Address, true), None);
}
