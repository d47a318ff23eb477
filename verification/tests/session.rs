//! One whole session, driven the way the polling loop drives the device:
//! boot without credentials, configure through the broker, associate,
//! acquire a session, poll, and render the fetched value.

use cgmlamp::coordinator::{Action, Coordinator, DeviceState, Event, TickInput};
use cgmlamp::device::Device;
use cgmlamp::lamp::Rgb;
use cgmlamp::server::ServerUpdate;

fn tick_event(device: &mut Device, now: u64, connected: bool) -> Event {
    Event::Tick(TickInput {
        now,
        has_wifi_creds: device.has_wifi_creds(),
        has_dexcom_creds: device.has_dexcom_creds(),
        wifi_connected: connected,
    })
}

/// Runs one loop turn: the device tick, then the coordinator on the tick
/// and any queued results, applying internal actions and collecting the
/// external ones.
fn turn(
    device: &mut Device,
    coordinator: &mut Coordinator,
    now: u64,
    connected: bool,
    results: Vec<Event>,
) -> Vec<Action> {
    device.tick();
    let mut external = Vec::new();
    let mut events = vec![tick_event(device, now, connected)];
    events.extend(results);
    for event in events {
        for action in coordinator.step(&event) {
            match action {
                Action::SetIndication(state) => device.set_indication(state),
                Action::ClearWifiCreds => device.clear_wifi_creds(),
                Action::ClearDexcomCreds => device.clear_dexcom_creds(),
                other => external.push(other),
            }
        }
    }
    external
}

#[test]
fn configure_connect_poll_and_render() {
    let mut device = Device::new();
    let mut coordinator = Coordinator::new();

    // Boot without credentials: the portal comes up.
    turn(&mut device, &mut coordinator, 0, false, vec![]);
    assert_eq!(coordinator.state, DeviceState::PresentConfigPortal);
    let actions = turn(&mut device, &mut coordinator, 1, false, vec![]);
    assert!(actions.contains(&Action::StartAccessPoint));
    assert!(actions.contains(&Action::StartServer));
    assert_eq!(coordinator.state, DeviceState::AwaitConfig);

    // The web form arrives with both credential sets; the next turn's
    // mailbox check hands them to their components, and the wait for
    // configuration ends.
    device.broadcast_write(&ServerUpdate {
        brightness: None,
        on: None,
        ap_ssid: Some("net".to_string()),
        ap_psk: Some("pw".to_string()),
        dexcom_user: Some("user".to_string()),
        dexcom_pass: Some("secret".to_string()),
    });
    let actions = turn(&mut device, &mut coordinator, 2, false, vec![]);
    assert_eq!(coordinator.state, DeviceState::Connecting);
    assert!(actions.contains(&Action::StopServer));

    // Association fails once, then succeeds; the session opens.
    let actions = turn(&mut device, &mut coordinator, 3, false, vec![]);
    assert_eq!(actions, vec![Action::Associate]);
    let actions =
        turn(&mut device, &mut coordinator, 4, false, vec![Event::AssocResult(false)]);
    assert_eq!(actions, vec![Action::Associate]);
    assert_eq!(coordinator.state, DeviceState::Connecting);
    let actions = turn(&mut device, &mut coordinator, 5, true, vec![Event::AssocResult(true)]);
    assert_eq!(coordinator.state, DeviceState::AcquiringSession);
    assert!(actions.contains(&Action::StartServer));
    let actions = turn(&mut device, &mut coordinator, 6, true, vec![]);
    assert_eq!(actions, vec![Action::AcquireSession]);
    let _ = turn(&mut device, &mut coordinator, 7, true, vec![Event::SessionResult(true)]);
    assert_eq!(coordinator.state, DeviceState::SteadyState);
    assert_eq!(coordinator.no_data_count, 0);

    // The first poll interval elapses: one fetch goes out, and its value
    // drives the indicator.
    let actions = turn(&mut device, &mut coordinator, 30, true, vec![]);
    assert_eq!(actions, vec![Action::FetchGlucose]);
    assert_eq!(coordinator.no_data_count, 1);
    let actions = turn(
        &mut device,
        &mut coordinator,
        31,
        true,
        vec![Event::FetchResult(Some(60))],
    );
    assert!(actions.is_empty());
    assert_eq!(coordinator.no_data_count, 0);
    let snapshot = device.broadcast_read();
    assert_eq!(snapshot.ap_ssid_stored, Some(true));
    assert_eq!(snapshot.dexcom_user_stored, Some(true));
    // The fetched value 60 rendered through the default brightness level:
    // the sweep point (241, 13, 0) dimmed by 64/255.
    let pixel = device.current_pixel();
    assert_eq!(pixel, Rgb::new(60, 3, 0));
}

#[test]
fn exhausted_association_returns_to_portal_without_creds() {
    let mut device = Device::new();
    let mut coordinator = Coordinator::new();
    device.broadcast_write(&ServerUpdate {
        brightness: None,
        on: None,
        ap_ssid: Some("net".to_string()),
        ap_psk: Some("bad".to_string()),
        dexcom_user: Some("user".to_string()),
        dexcom_pass: Some("secret".to_string()),
    });
    turn(&mut device, &mut coordinator, 0, false, vec![]);
    assert_eq!(coordinator.state, DeviceState::Connecting);
    turn(&mut device, &mut coordinator, 1, false, vec![Event::AssocResult(false)]);
    turn(&mut device, &mut coordinator, 2, false, vec![Event::AssocResult(false)]);
    turn(&mut device, &mut coordinator, 3, false, vec![Event::AssocResult(false)]);
    // The third failure cleared the network credentials and fell back to
    // the portal; the remote pair survives.
    assert_eq!(coordinator.state, DeviceState::PresentConfigPortal);
    assert!(!device.has_wifi_creds());
    assert!(device.has_dexcom_creds());
}
