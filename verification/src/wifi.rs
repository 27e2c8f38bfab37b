//! The decisions of the Wi-Fi tasks: keeping a station connected, keeping
//! an access point up, and waiting for the network to be ready.
//!
//! Each loop is a state machine. Its owner performs the pending action
//! (asking the radio, starting it, connecting, sleeping) and reports the
//! answer; the machine returns the next action.

use vstd::prelude::*;

verus! {

/// The wait after losing a connection or failing to connect, in milliseconds.
pub const RECONNECT_DELAY_MS: u32 = 5_000;

/// The wait between two checks of a running access point, in milliseconds.
pub const ACCESS_POINT_POLL_MS: u32 = 500;

/// The wait between two checks of the link, in milliseconds.
pub const LINK_POLL_MS: u32 = 500;

/// The wait between two checks for an IPv4 configuration, in milliseconds.
pub const ADDRESS_POLL_MS: u32 = 100;

/// What the owner of a Wi-Fi loop must do next.
#[derive(Clone, Copy, Debug, PartialEq, Eq)]
pub enum WifiAction {
    /// Report whether the station is connected (or the access point started).
    QueryState,
    /// Wait until the station is disconnected (or the access point stopped).
    WaitForStop,
    /// Report whether the radio controller has been started.
    QueryStarted,
    /// Configure the radio with the credentials and start it.
    Start,
    /// Connect the station to the configured network.
    Connect,
    /// Sleep for this many milliseconds.
    Delay(u32),
}

/// What happened when the pending action was performed.
#[derive(Clone, Copy, Debug, PartialEq, Eq)]
pub enum WifiEvent {
    /// The answer to `QueryState`: connected, or access point started.
    State(bool),
    /// The answer to `QueryStarted`.
    Started(bool),
    /// The answer to `Connect`: `true` when the connection succeeded.
    Connected(bool),
    /// A wait, a delay or a start is over.
    Done,
}

/// The state of the station loop.
#[derive(Clone, Copy, Debug, PartialEq, Eq)]
pub struct StationState {
    pub pending: WifiAction,
    /// Whether the pending delay follows a failed connection.
    pub after_failure: bool,
}

/// The transition of the station loop. One turn: while connected, wait
/// for the disconnection and pause; start the radio if it is not started;
/// connect, and pause after a failure; then start over.
pub open spec fn station_step(s: StationState, event: WifiEvent) -> StationState {
    match (s.pending, event) {
        (WifiAction::QueryState, WifiEvent::State(connected)) => StationState {
            pending: if connected {
                WifiAction::WaitForStop
            } else {
                WifiAction::QueryStarted
            },
            after_failure: false,
        },
        (WifiAction::WaitForStop, WifiEvent::Done) => StationState {
            pending: WifiAction::Delay(RECONNECT_DELAY_MS),
            after_failure: false,
        },
        (WifiAction::Delay(_), WifiEvent::Done) => StationState {
            pending: if s.after_failure {
                WifiAction::QueryState
            } else {
                WifiAction::QueryStarted
            },
            after_failure: false,
        },
        (WifiAction::QueryStarted, WifiEvent::Started(started)) => StationState {
            pending: if started {
                WifiAction::Connect
            } else {
                WifiAction::Start
            },
            after_failure: false,
        },
        (WifiAction::Start, WifiEvent::Done) => StationState {
            pending: WifiAction::Connect,
            after_failure: false,
        },
        (WifiAction::Connect, WifiEvent::Connected(ok)) => if ok {
            StationState { pending: WifiAction::QueryState, after_failure: false }
        } else {
            StationState { pending: WifiAction::Delay(RECONNECT_DELAY_MS), after_failure: true }
        },
        _ => s,
    }
}

/// The station loop never starts a radio that reports being started, and
/// connects only once it knows the radio is started.
pub proof fn lemma_station_starts_only_when_stopped(s: StationState, event: WifiEvent)
    ensures
        station_step(s, event).pending == WifiAction::Start && s.pending != WifiAction::Start
            ==> s.pending == WifiAction::QueryStarted
            && event == WifiEvent::Started(false),
        station_step(s, event).pending == WifiAction::Connect && s.pending != WifiAction::Connect
            ==> (s.pending == WifiAction::Start && event == WifiEvent::Done) || (s.pending
            == WifiAction::QueryStarted && event == WifiEvent::Started(true)),
{
}

/// A failed connection is followed by a pause of `RECONNECT_DELAY_MS`, and
/// the next turn starts after it.
pub proof fn lemma_station_pauses_after_failure(s: StationState)
    requires
        s.pending == WifiAction::Connect,
    ensures
        station_step(s, WifiEvent::Connected(false)).pending == WifiAction::Delay(RECONNECT_DELAY_MS),
        station_step(station_step(s, WifiEvent::Connected(false)), WifiEvent::Done).pending
            == WifiAction::QueryState,
{
}

/// The station loop of the Wi-Fi connection task.
pub struct StationLoop {
    state: StationState,
}

impl View for StationLoop {
    type V = StationState;

    closed spec fn view(&self) -> StationState {
        self.state
    }
}

impl StationLoop {
    /// A loop whose first action asks for the station's state.
    pub fn new() -> (station: Self)
        ensures
            station@ == (StationState { pending: WifiAction::QueryState, after_failure: false }),
    {
        StationLoop { state: StationState { pending: WifiAction::QueryState, after_failure: false } }
    }

    pub fn pending(&self) -> (action: WifiAction)
        ensures
            action == self@.pending,
    {
        self.state.pending
    }

    /// Reports what happened and returns the next action.
    pub fn step(&mut self, event: WifiEvent) -> (action: WifiAction)
        ensures
            final(self)@ == station_step(old(self)@, event),
            action == final(self)@.pending,
    {
        let s = self.state;
        let next = match (s.pending, event) {
            (WifiAction::QueryState, WifiEvent::State(connected)) => StationState {
                pending: if connected {
                    WifiAction::WaitForStop
                } else {
                    WifiAction::QueryStarted
                },
                after_failure: false,
            },
            (WifiAction::WaitForStop, WifiEvent::Done) => StationState {
                pending: WifiAction::Delay(RECONNECT_DELAY_MS),
                after_failure: false,
            },
            (WifiAction::Delay(_), WifiEvent::Done) => StationState {
                pending: if s.after_failure {
                    WifiAction::QueryState
                } else {
                    WifiAction::QueryStarted
                },
                after_failure: false,
            },
            (WifiAction::QueryStarted, WifiEvent::Started(started)) => StationState {
                pending: if started {
                    WifiAction::Connect
                } else {
                    WifiAction::Start
                },
                after_failure: false,
            },
            (WifiAction::Start, WifiEvent::Done) => StationState {
                pending: WifiAction::Connect,
                after_failure: false,
            },
            (WifiAction::Connect, WifiEvent::Connected(ok)) => if ok {
                StationState { pending: WifiAction::QueryState, after_failure: false }
            } else {
                StationState { pending: WifiAction::Delay(RECONNECT_DELAY_MS), after_failure: true }
            },
            _ => s,
        };
        self.state = next;
        next.pending
    }
}

/// One turn of the access point loop: while the access point runs, wait
/// until it stops and pause; if the controller is started, pause briefly;
/// otherwise configure and start it; then start over.
pub open spec fn access_point_step(pending: WifiAction, event: WifiEvent) -> WifiAction {
    match (pending, event) {
        (WifiAction::QueryState, WifiEvent::State(running)) => if running {
            WifiAction::WaitForStop
        } else {
            WifiAction::QueryStarted
        },
        (WifiAction::WaitForStop, WifiEvent::Done) => WifiAction::Delay(RECONNECT_DELAY_MS),
        (WifiAction::Delay(ms), WifiEvent::Done) => if ms == RECONNECT_DELAY_MS {
            WifiAction::QueryStarted
        } else {
            WifiAction::QueryState
        },
        (WifiAction::QueryStarted, WifiEvent::Started(started)) => if started {
            WifiAction::Delay(ACCESS_POINT_POLL_MS)
        } else {
            WifiAction::Start
        },
        (WifiAction::Start, WifiEvent::Done) => WifiAction::QueryState,
        _ => pending,
    }
}

/// The access point loop never connects as a station, and starts the radio
/// only after learning that it is not started.
pub proof fn lemma_access_point_never_connects(pending: WifiAction, event: WifiEvent)
    requires
        pending != WifiAction::Connect,
    ensures
        access_point_step(pending, event) != WifiAction::Connect,
        access_point_step(pending, event) == WifiAction::Start && pending != WifiAction::Start
            ==> pending == WifiAction::QueryStarted && event == WifiEvent::Started(false),
{
}

/// The access point loop of the Wi-Fi connection task.
pub struct AccessPointLoop {
    pending: WifiAction,
}

impl View for AccessPointLoop {
    type V = WifiAction;

    closed spec fn view(&self) -> WifiAction {
        self.pending
    }
}

impl AccessPointLoop {
    /// A loop whose first action asks whether the access point runs.
    pub fn new() -> (access_point: Self)
        ensures
            access_point@ == WifiAction::QueryState,
    {
        AccessPointLoop { pending: WifiAction::QueryState }
    }

    pub fn pending(&self) -> (action: WifiAction)
        ensures
            action == self@,
    {
        self.pending
    }

    /// Reports what happened and returns the next action.
    pub fn step(&mut self, event: WifiEvent) -> (action: WifiAction)
        ensures
            final(self)@ == access_point_step(old(self)@, event),
            action == final(self)@,
    {
        let next = match (self.pending, event) {
            (WifiAction::QueryState, WifiEvent::State(running)) => if running {
                WifiAction::WaitForStop
            } else {
                WifiAction::QueryStarted
            },
            (WifiAction::WaitForStop, WifiEvent::Done) => WifiAction::Delay(RECONNECT_DELAY_MS),
            (WifiAction::Delay(ms), WifiEvent::Done) => if ms == RECONNECT_DELAY_MS {
                WifiAction::QueryStarted
            } else {
                WifiAction::QueryState
            },
            (WifiAction::QueryStarted, WifiEvent::Started(started)) => if started {
                WifiAction::Delay(ACCESS_POINT_POLL_MS)
            } else {
                WifiAction::Start
            },
            (WifiAction::Start, WifiEvent::Done) => WifiAction::QueryState,
            _ => self.pending,
        };
        self.pending = next;
        next
    }
}

/// What the wait for a ready network polls.
#[derive(Clone, Copy, Debug, PartialEq, Eq)]
pub enum ReadinessCheck {
    /// Whether the link is up.
    Link,
    /// Whether an IPv4 configuration has been obtained.
    Address,
}

/// The next step of waiting for the network: the link is polled every
/// `LINK_POLL_MS` until it is up, then the address every `ADDRESS_POLL_MS`
/// until there is one. `None` when the network is ready.
pub open spec fn readiness_next(check: ReadinessCheck, ready: bool) -> Option<(ReadinessCheck, u32)> {
    match check {
        ReadinessCheck::Link => if ready {
            Some((ReadinessCheck::Address, 0u32))
        } else {
            Some((ReadinessCheck::Link, LINK_POLL_MS))
        },
        ReadinessCheck::Address => if ready {
            None
        } else {
            Some((ReadinessCheck::Address, ADDRESS_POLL_MS))
        },
    }
}

/// After a poll of `check` that answered `ready`: the next thing to poll and
/// how long to wait before polling it, or `None` when the network is ready.
pub fn readiness_step(check: ReadinessCheck, ready: bool) -> (next: Option<(ReadinessCheck, u32)>)
    ensures
        next == readiness_next(check, ready),
{
    match check {
        ReadinessCheck::Link => if ready {
            Some((ReadinessCheck::Address, 0))
        } else {
            Some((ReadinessCheck::Link, LINK_POLL_MS))
        },
        ReadinessCheck::Address => if ready {
            None
        } else {
            Some((ReadinessCheck::Address, ADDRESS_POLL_MS))
        },
    }
}

} // verus!
