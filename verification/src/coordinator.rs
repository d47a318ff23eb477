//! The device coordinator: the state machine that sequences connectivity
//! bring-up, remote session acquisition and the steady-state polling loop.
//! Each step consumes one event (a tick of the polling loop, or the result
//! of an action the machine asked for) and yields the actions the outside
//! loop must perform: drive the radio, the servers, the remote login, the
//! data fetch and the indicator.
//!
//! Failure is never fatal: association and session acquisition each retry
//! up to a fixed ceiling and then fall back to the configuration portal,
//! clearing the credentials that failed.

use crate::lamp::{spec_from_glucose, LedState, Rgb};
use vstd::prelude::*;

verus! {

/// Seconds between remote data fetches in the steady state.
pub const QUERY_INTERVAL: u64 = 20;

/// Failed association attempts tolerated before falling back to the portal.
pub const MAX_CONNECT_ATTEMPTS: u32 = 3;

/// Failed session acquisitions tolerated before falling back to the portal.
pub const MAX_SESSION_ATTEMPTS: u32 = 3;

/// Consecutive fetch failures after which the indicator shows stale data.
pub const NO_DATA_LIMIT: u32 = 600;

/// The coordinator's states.
#[derive(Clone, Copy, Debug, PartialEq, Eq, Structural)]
pub enum DeviceState {
    /// Deciding between configuration mode and normal operation.
    Boot,
    /// Bringing up the access point and the configuration server.
    PresentConfigPortal,
    /// Waiting for both credential sets to arrive.
    AwaitConfig,
    /// Associating with the configured network, with bounded retries.
    Connecting,
    /// Logging in to the remote service, with bounded retries.
    AcquiringSession,
    /// Polling the remote service on a fixed interval.
    SteadyState,
}

/// What the coordinator observes on a tick of the polling loop.
#[derive(Clone, Copy, Debug, PartialEq, Eq, Structural)]
pub struct TickInput {
    /// Monotonic seconds.
    pub now: u64,
    /// Both network credentials are stored.
    pub has_wifi_creds: bool,
    /// Both remote-service credentials are stored.
    pub has_dexcom_creds: bool,
    /// The radio reports an association.
    pub wifi_connected: bool,
}

/// One event consumed by the coordinator: a tick, or the result of an
/// action it asked for.
#[derive(Clone, Copy, Debug)]
pub enum Event {
    /// A tick of the polling loop.
    Tick(TickInput),
    /// The outcome of a requested association attempt.
    AssocResult(bool),
    /// The outcome of a requested remote login.
    SessionResult(bool),
    /// The outcome of a requested data fetch: the fetched value, if any.
    FetchResult(Option<isize>),
}

/// An action the outside loop must perform for the coordinator.
#[derive(Clone, Copy, Debug, PartialEq)]
pub enum Action {
    /// Render this indication.
    SetIndication(LedState),
    /// Start the radio in access-point mode.
    StartAccessPoint,
    /// Start the HTTP server.
    StartServer,
    /// Stop the HTTP server.
    StopServer,
    /// Attempt one station-mode association.
    Associate,
    /// Run the remote login sequence.
    AcquireSession,
    /// Fetch the latest remote value.
    FetchGlucose,
    /// Forget the stored network credentials.
    ClearWifiCreds,
    /// Forget the stored remote-service credentials.
    ClearDexcomCreds,
}

/// The coordinator: its state and the transient counters that bound
/// retries, track missing data and pace the polling.
#[derive(Clone, Copy, Debug)]
pub struct Coordinator {
    pub state: DeviceState,
    /// Failed association attempts in the current connecting phase.
    pub connect_attempts: u32,
    /// Failed logins in the current session-acquisition phase.
    pub session_attempts: u32,
    /// Consecutive fetches without data.
    pub no_data_count: u32,
    /// When the last fetch was issued, in monotonic seconds.
    pub last_query: u64,
}

/// A counter increment that stops at the counter's ceiling instead of
/// wrapping.
pub open spec fn bumped(c: u32) -> u32 {
    if c == u32::MAX {
        c
    } else {
        (c + 1) as u32
    }
}

/// The steady white indication shown while booting, awaiting data or
/// holding a stale value.
pub open spec fn spec_white() -> Rgb {
    Rgb { r: 255u8, g: 255u8, b: 255u8 }
}

/// The transition function: the coordinator after consuming one event, and
/// the actions the outside loop must perform. An event that is not the
/// answer the current state waits for changes nothing.
pub open spec fn spec_step(c: Coordinator, e: Event) -> (Coordinator, Seq<Action>) {
    match c.state {
        DeviceState::Boot => match e {
            Event::Tick(i) => if i.has_wifi_creds && i.has_dexcom_creds {
                (
                    Coordinator { state: DeviceState::Connecting, connect_attempts: 0, ..c },
                    seq![Action::SetIndication(LedState::Steady(spec_white()))],
                )
            } else {
                (
                    Coordinator { state: DeviceState::PresentConfigPortal, ..c },
                    seq![Action::SetIndication(LedState::Steady(spec_white()))],
                )
            },
            _ => (c, Seq::empty()),
        },
        DeviceState::PresentConfigPortal => match e {
            Event::Tick(_) => (
                Coordinator { state: DeviceState::AwaitConfig, ..c },
                seq![
                    Action::StartAccessPoint,
                    Action::StartServer,
                    Action::SetIndication(LedState::Breathe(spec_white())),
                ],
            ),
            _ => (c, Seq::empty()),
        },
        DeviceState::AwaitConfig => match e {
            Event::Tick(i) => if i.has_wifi_creds && i.has_dexcom_creds {
                (
                    Coordinator { state: DeviceState::Connecting, connect_attempts: 0, ..c },
                    seq![
                        Action::StopServer,
                        Action::SetIndication(LedState::Steady(spec_white())),
                    ],
                )
            } else {
                (c, Seq::empty())
            },
            _ => (c, Seq::empty()),
        },
        DeviceState::Connecting => match e {
            Event::Tick(_) => (c, seq![Action::Associate]),
            Event::AssocResult(ok) => if ok {
                (
                    Coordinator {
                        state: DeviceState::AcquiringSession,
                        connect_attempts: 0,
                        session_attempts: 0,
                        ..c
                    },
                    seq![Action::StartServer],
                )
            } else if bumped(c.connect_attempts) >= MAX_CONNECT_ATTEMPTS {
                (
                    Coordinator {
                        state: DeviceState::PresentConfigPortal,
                        connect_attempts: 0,
                        ..c
                    },
                    seq![Action::ClearWifiCreds],
                )
            } else {
                (Coordinator { connect_attempts: bumped(c.connect_attempts), ..c }, Seq::empty())
            },
            _ => (c, Seq::empty()),
        },
        DeviceState::AcquiringSession => match e {
            Event::Tick(_) => (c, seq![Action::AcquireSession]),
            Event::SessionResult(ok) => if ok {
                (
                    Coordinator {
                        state: DeviceState::SteadyState,
                        no_data_count: 0,
                        last_query: 0,
                        ..c
                    },
                    Seq::empty(),
                )
            } else if bumped(c.session_attempts) >= MAX_SESSION_ATTEMPTS {
                (
                    Coordinator {
                        state: DeviceState::PresentConfigPortal,
                        session_attempts: 0,
                        ..c
                    },
                    seq![Action::ClearDexcomCreds],
                )
            } else {
                (Coordinator { session_attempts: bumped(c.session_attempts), ..c }, Seq::empty())
            },
            _ => (c, Seq::empty()),
        },
        DeviceState::SteadyState => match e {
            Event::Tick(i) => if !(i.has_wifi_creds && i.has_dexcom_creds) {
                (
                    Coordinator { state: DeviceState::PresentConfigPortal, ..c },
                    seq![Action::StopServer],
                )
            } else if i.now > c.last_query + QUERY_INTERVAL {
                if !i.wifi_connected {
                    (
                        Coordinator {
                            state: DeviceState::Connecting,
                            connect_attempts: 0,
                            last_query: i.now,
                            no_data_count: bumped(c.no_data_count),
                            ..c
                        },
                        seq![Action::StopServer],
                    )
                } else {
                    (
                        Coordinator {
                            last_query: i.now,
                            no_data_count: bumped(c.no_data_count),
                            ..c
                        },
                        seq![Action::FetchGlucose],
                    )
                }
            } else {
                (c, Seq::empty())
            },
            Event::FetchResult(outcome) => match outcome {
                Some(value) => (
                    Coordinator { no_data_count: 0, ..c },
                    seq![Action::SetIndication(spec_from_glucose(value as int))],
                ),
                None => if c.no_data_count >= NO_DATA_LIMIT {
                    (c, seq![Action::SetIndication(LedState::Steady(spec_white()))])
                } else {
                    (c, Seq::empty())
                },
            },
            _ => (c, Seq::empty()),
        },
    }
}

impl Coordinator {
    /// A coordinator at boot, with every counter cleared.
    pub fn new() -> (c: Self)
        ensures
            c == (Coordinator {
                state: DeviceState::Boot,
                connect_attempts: 0u32,
                session_attempts: 0u32,
                no_data_count: 0u32,
                last_query: 0u64,
            }),
    {
        Coordinator {
            state: DeviceState::Boot,
            connect_attempts: 0,
            session_attempts: 0,
            no_data_count: 0,
            last_query: 0,
        }
    }

    /// Consumes one event and yields the actions to perform, exactly as the
    /// transition function says.
    pub fn step(&mut self, event: &Event) -> (actions: Vec<Action>)
        ensures
            *final(self) == spec_step(*old(self), *event).0,
            actions@ == spec_step(*old(self), *event).1,
    {
        let mut actions: Vec<Action> = Vec::new();
        match self.state {
            DeviceState::Boot => match event {
                Event::Tick(i) => {
                    actions.push(Action::SetIndication(LedState::Steady(Rgb {
                        r: 255,
                        g: 255,
                        b: 255,
                    })));
                    if i.has_wifi_creds && i.has_dexcom_creds {
                        self.state = DeviceState::Connecting;
                        self.connect_attempts = 0;
                    } else {
                        self.state = DeviceState::PresentConfigPortal;
                    }
                },
                _ => {},
            },
            DeviceState::PresentConfigPortal => match event {
                Event::Tick(_) => {
                    actions.push(Action::StartAccessPoint);
                    actions.push(Action::StartServer);
                    actions.push(Action::SetIndication(LedState::Breathe(Rgb {
                        r: 255,
                        g: 255,
                        b: 255,
                    })));
                    self.state = DeviceState::AwaitConfig;
                },
                _ => {},
            },
            DeviceState::AwaitConfig => match event {
                Event::Tick(i) => {
                    if i.has_wifi_creds && i.has_dexcom_creds {
                        actions.push(Action::StopServer);
                        actions.push(Action::SetIndication(LedState::Steady(Rgb {
                            r: 255,
                            g: 255,
                            b: 255,
                        })));
                        self.state = DeviceState::Connecting;
                        self.connect_attempts = 0;
                    }
                },
                _ => {},
            },
            DeviceState::Connecting => match event {
                Event::Tick(_) => {
                    actions.push(Action::Associate);
                },
                Event::AssocResult(ok) => {
                    if *ok {
                        self.state = DeviceState::AcquiringSession;
                        self.connect_attempts = 0;
                        self.session_attempts = 0;
                        actions.push(Action::StartServer);
                    } else {
                        let next = if self.connect_attempts == u32::MAX {
                            self.connect_attempts
                        } else {
                            self.connect_attempts + 1
                        };
                        if next >= MAX_CONNECT_ATTEMPTS {
                            self.state = DeviceState::PresentConfigPortal;
                            self.connect_attempts = 0;
                            actions.push(Action::ClearWifiCreds);
                        } else {
                            self.connect_attempts = next;
                        }
                    }
                },
                _ => {},
            },
            DeviceState::AcquiringSession => match event {
                Event::Tick(_) => {
                    actions.push(Action::AcquireSession);
                },
                Event::SessionResult(ok) => {
                    if *ok {
                        self.state = DeviceState::SteadyState;
                        self.no_data_count = 0;
                        self.last_query = 0;
                    } else {
                        let next = if self.session_attempts == u32::MAX {
                            self.session_attempts
                        } else {
                            self.session_attempts + 1
                        };
                        if next >= MAX_SESSION_ATTEMPTS {
                            self.state = DeviceState::PresentConfigPortal;
                            self.session_attempts = 0;
                            actions.push(Action::ClearDexcomCreds);
                        } else {
                            self.session_attempts = next;
                        }
                    }
                },
                _ => {},
            },
            DeviceState::SteadyState => match event {
                Event::Tick(i) => {
                    if !(i.has_wifi_creds && i.has_dexcom_creds) {
                        actions.push(Action::StopServer);
                        self.state = DeviceState::PresentConfigPortal;
                    } else {
                        let due = match self.last_query.checked_add(QUERY_INTERVAL) {
                            Some(t) => i.now > t,
                            None => false,
                        };
                        if due {
                            self.last_query = i.now;
                            self.no_data_count = if self.no_data_count == u32::MAX {
                                self.no_data_count
                            } else {
                                self.no_data_count + 1
                            };
                            if !i.wifi_connected {
                                actions.push(Action::StopServer);
                                self.state = DeviceState::Connecting;
                                self.connect_attempts = 0;
                            } else {
                                actions.push(Action::FetchGlucose);
                            }
                        }
                    }
                },
                Event::FetchResult(outcome) => match outcome {
                    Some(value) => {
                        actions.push(Action::SetIndication(LedState::from_glucose(*value)));
                        self.no_data_count = 0;
                    },
                    None => {
                        if self.no_data_count >= NO_DATA_LIMIT {
                            actions.push(Action::SetIndication(LedState::Steady(Rgb {
                                r: 255,
                                g: 255,
                                b: 255,
                            })));
                        }
                    },
                },
                _ => {},
            },
        }
        proof {
            assert(*self == spec_step(*old(self), *event).0);
            assert(actions@ =~= spec_step(*old(self), *event).1);
        }
        actions
    }
}

/// A successful remote login moves the coordinator into the steady state
/// with the missing-data counter cleared.
pub proof fn lemma_session_success_enters_steady(c: Coordinator)
    requires
        c.state == DeviceState::AcquiringSession,
    ensures
        spec_step(c, Event::SessionResult(true)).0.state == DeviceState::SteadyState,
        spec_step(c, Event::SessionResult(true)).0.no_data_count == 0,
{
}

/// Three consecutive failed association attempts clear the network
/// credentials and fall back to the configuration portal; the first two
/// keep trying.
pub proof fn lemma_assoc_exhaustion_falls_back(c: Coordinator)
    requires
        c.state == DeviceState::Connecting,
        c.connect_attempts == 0,
    ensures
        ({
            let c1 = spec_step(c, Event::AssocResult(false)).0;
            let c2 = spec_step(c1, Event::AssocResult(false)).0;
            let c3 = spec_step(c2, Event::AssocResult(false)).0;
            let acts3 = spec_step(c2, Event::AssocResult(false)).1;
            &&& c1.state == DeviceState::Connecting
            &&& c2.state == DeviceState::Connecting
            &&& spec_step(c, Event::AssocResult(false)).1 == Seq::<Action>::empty()
            &&& spec_step(c1, Event::AssocResult(false)).1 == Seq::<Action>::empty()
            &&& c3.state == DeviceState::PresentConfigPortal
            &&& acts3 == seq![Action::ClearWifiCreds]
        }),
{
}

} // verus!
