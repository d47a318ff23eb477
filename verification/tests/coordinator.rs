use cgmlamp::coordinator::{Action, Coordinator, DeviceState, Event, TickInput};
use cgmlamp::lamp::{LedState, Rgb};

fn tick(now: u64, wifi: bool, dexcom: bool, connected: bool) -> Event {
    Event::Tick(TickInput {
        now,
        has_wifi_creds: wifi,
        has_dexcom_creds: dexcom,
        wifi_connected: connected,
    })
}

#[test]
fn boot_without_creds_presents_portal() {
    let mut c = Coordinator::new();
    let actions = c.step(&tick(0, false, false, false));
    assert_eq!(c.state, DeviceState::PresentConfigPortal);
    assert_eq!(
        actions,
        vec![Action::SetIndication(LedState::Steady(Rgb::new(255, 255, 255)))]
    );
}

#[test]
fn boot_with_both_cred_sets_connects() {
    let mut c = Coordinator::new();
    c.step(&tick(0, true, true, false));
    assert_eq!(c.state, DeviceState::Connecting);
}

#[test]
fn portal_brings_up_access_point_and_server() {
    let mut c = Coordinator::new();
    c.step(&tick(0, false, true, false));
    let actions = c.step(&tick(1, false, true, false));
    assert_eq!(c.state, DeviceState::AwaitConfig);
    assert_eq!(
        actions,
        vec![
            Action::StartAccessPoint,
            Action::StartServer,
            Action::SetIndication(LedState::Breathe(Rgb::new(255, 255, 255))),
        ]
    );
}

#[test]
fn await_config_waits_for_both_cred_sets() {
    let mut c = Coordinator::new();
    c.step(&tick(0, false, false, false));
    c.step(&tick(1, false, false, false));
    assert_eq!(c.state, DeviceState::AwaitConfig);
    let actions = c.step(&tick(2, true, false, false));
    assert_eq!(c.state, DeviceState::AwaitConfig);
    assert!(actions.is_empty());
    let actions = c.step(&tick(3, true, true, false));
    assert_eq!(c.state, DeviceState::Connecting);
    assert_eq!(
        actions,
        vec![
            Action::StopServer,
            Action::SetIndication(LedState::Steady(Rgb::new(255, 255, 255))),
        ]
    );
}

#[test]
fn connecting_asks_for_association_each_tick() {
    let mut c = Coordinator::new();
    c.step(&tick(0, true, true, false));
    let actions = c.step(&tick(1, true, true, false));
    assert_eq!(actions, vec![Action::Associate]);
    assert_eq!(c.state, DeviceState::Connecting);
}

#[test]
fn association_success_starts_server_and_session_acquisition() {
    let mut c = Coordinator::new();
    c.step(&tick(0, true, true, false));
    let actions = c.step(&Event::AssocResult(true));
    assert_eq!(c.state, DeviceState::AcquiringSession);
    assert_eq!(actions, vec![Action::StartServer]);
}

#[test]
fn three_failed_associations_clear_network_creds_and_fall_back() {
    // Three consecutive failed association attempts while connecting clear
    // the network credentials and return to the configuration portal.
    let mut c = Coordinator::new();
    c.step(&tick(0, true, true, false));
    assert_eq!(c.state, DeviceState::Connecting);
    let a1 = c.step(&Event::AssocResult(false));
    assert_eq!(c.state, DeviceState::Connecting);
    assert!(a1.is_empty());
    let a2 = c.step(&Event::AssocResult(false));
    assert_eq!(c.state, DeviceState::Connecting);
    assert!(a2.is_empty());
    let a3 = c.step(&Event::AssocResult(false));
    assert_eq!(c.state, DeviceState::PresentConfigPortal);
    assert_eq!(a3, vec![Action::ClearWifiCreds]);
}

#[test]
fn session_success_enters_steady_state_with_counter_reset() {
    // A successful remote-session result in session acquisition moves to
    // the steady state and the missing-data counter starts from zero.
    let mut c = Coordinator::new();
    c.step(&tick(0, true, true, false));
    c.step(&Event::AssocResult(true));
    c.no_data_count = 17;
    let actions = c.step(&Event::SessionResult(true));
    assert_eq!(c.state, DeviceState::SteadyState);
    assert_eq!(c.no_data_count, 0);
    assert!(actions.is_empty());
}

#[test]
fn three_failed_sessions_clear_remote_creds_and_fall_back() {
    let mut c = Coordinator::new();
    c.step(&tick(0, true, true, false));
    c.step(&Event::AssocResult(true));
    assert_eq!(c.state, DeviceState::AcquiringSession);
    c.step(&Event::SessionResult(false));
    c.step(&Event::SessionResult(false));
    assert_eq!(c.state, DeviceState::AcquiringSession);
    let a3 = c.step(&Event::SessionResult(false));
    assert_eq!(c.state, DeviceState::PresentConfigPortal);
    assert_eq!(a3, vec![Action::ClearDexcomCreds]);
}

fn steady() -> Coordinator {
    let mut c = Coordinator::new();
    c.step(&tick(0, true, true, true));
    c.step(&Event::AssocResult(true));
    c.step(&Event::SessionResult(true));
    assert_eq!(c.state, DeviceState::SteadyState);
    c
}

#[test]
fn steady_state_fetches_on_the_poll_interval() {
    let mut c = steady();
    let actions = c.step(&tick(10, true, true, true));
    assert!(actions.is_empty());
    let actions = c.step(&tick(21, true, true, true));
    assert_eq!(actions, vec![Action::FetchGlucose]);
    assert_eq!(c.last_query, 21);
    assert_eq!(c.no_data_count, 1);
    // The next tick inside the interval fetches nothing.
    let actions = c.step(&tick(30, true, true, true));
    assert!(actions.is_empty());
}

#[test]
fn steady_state_renders_fetched_value() {
    let mut c = steady();
    c.step(&tick(21, true, true, true));
    let actions = c.step(&Event::FetchResult(Some(60)));
    assert_eq!(c.no_data_count, 0);
    assert_eq!(
        actions,
        vec![Action::SetIndication(LedState::Steady(Rgb::new(241, 13, 0)))]
    );
}

#[test]
fn steady_state_shows_stale_after_enough_misses() {
    let mut c = steady();
    c.no_data_count = 599;
    let actions = c.step(&Event::FetchResult(None));
    assert!(actions.is_empty());
    c.no_data_count = 600;
    let actions = c.step(&Event::FetchResult(None));
    assert_eq!(
        actions,
        vec![Action::SetIndication(LedState::Steady(Rgb::new(255, 255, 255)))]
    );
    assert_eq!(c.state, DeviceState::SteadyState);
}

#[test]
fn steady_state_falls_back_to_portal_when_creds_vanish() {
    let mut c = steady();
    let actions = c.step(&tick(21, true, false, true));
    assert_eq!(c.state, DeviceState::PresentConfigPortal);
    assert_eq!(actions, vec![Action::StopServer]);
}

#[test]
fn steady_state_reconnects_when_association_is_lost() {
    let mut c = steady();
    let actions = c.step(&tick(21, true, true, false));
    assert_eq!(c.state, DeviceState::Connecting);
    assert_eq!(actions, vec![Action::StopServer]);
}

#[test]
fn unexpected_events_change_nothing() {
    let mut c = Coordinator::new();
    let actions = c.step(&Event::FetchResult(Some(100)));
    assert_eq!(c.state, DeviceState::Boot);
    assert!(actions.is_empty());
    let actions = c.step(&Event::SessionResult(true));
    assert_eq!(c.state, DeviceState::Boot);
    assert!(actions.is_empty());
}
