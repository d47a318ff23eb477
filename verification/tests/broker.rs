use cgmlamp::device::Device;
use cgmlamp::server::{Broker, ServableDataReq, ServableDataRsp, ServerData, ServerUpdate};
use cgmlamp::settings::SettingsAction;

fn update(
    brightness: Option<u8>,
    on: Option<bool>,
    ssid: Option<&str>,
    psk: Option<&str>,
    user: Option<&str>,
    pass: Option<&str>,
) -> ServerUpdate {
    ServerUpdate {
        brightness,
        on,
        ap_ssid: ssid.map(|s| s.to_string()),
        ap_psk: psk.map(|s| s.to_string()),
        dexcom_user: user.map(|s| s.to_string()),
        dexcom_pass: pass.map(|s| s.to_string()),
    }
}

#[test]
fn merge_keeps_the_first_writer() {
    let mut acc = ServerData::new();
    let mut first = ServerData::new();
    first.brightness = Some(10);
    let mut second = ServerData::new();
    second.brightness = Some(99);
    second.uptime = Some(7);
    acc.merge(&first);
    acc.merge(&second);
    assert_eq!(acc.brightness, Some(10));
    assert_eq!(acc.uptime, Some(7));
    assert_eq!(acc.temp, None);
}

#[test]
fn broker_fans_out_and_collects_one_answer_per_component() {
    let mut broker = Broker::new();
    let a = broker.register();
    let b = broker.register();
    assert_eq!(a, 0);
    assert_eq!(b, 1);
    assert_eq!(broker.num_components(), 2);
    broker.begin_read();
    // Both mailboxes got the read request.
    for id in [a, b] {
        match broker.take_request(id) {
            Some(ServableDataReq::Get) => {},
            other => panic!("expected a read request, got {:?}", other),
        }
    }
    let mut first = ServerData::new();
    first.brightness = Some(3);
    broker.submit(ServableDataRsp::Data(first));
    assert!(broker.read_pending());
    // An error answer still counts as the component's one answer.
    broker.submit(ServableDataRsp::Error);
    assert!(!broker.read_pending());
    let snapshot = broker.finish_read();
    assert_eq!(snapshot.brightness, Some(3));
    assert_eq!(snapshot.on, None);
}

#[test]
fn partial_fan_in_merges_what_arrived() {
    let mut broker = Broker::new();
    broker.register();
    broker.register();
    broker.begin_read();
    let mut only = ServerData::new();
    only.temp = Some(2150);
    broker.submit(ServableDataRsp::Data(only));
    // One component never answers: the bounded-wait fallback still
    // produces a snapshot from what arrived.
    let snapshot = broker.finish_read_partial();
    assert_eq!(snapshot.temp, Some(2150));
    assert_eq!(snapshot.brightness, None);
}

#[test]
fn broadcast_write_reaches_every_component() {
    let mut broker = Broker::new();
    let a = broker.register();
    let b = broker.register();
    broker.broadcast_write(&update(Some(5), None, None, None, None, None));
    for id in [a, b] {
        match broker.take_request(id) {
            Some(ServableDataReq::Write(u)) => assert_eq!(u.brightness, Some(5)),
            other => panic!("expected a write request, got {:?}", other),
        }
    }
}

#[test]
fn device_read_yields_one_contribution_per_component() {
    // Five registered components, each contributing its own fields: the
    // snapshot carries exactly their answers, and the fields nobody
    // supplies stay absent.
    let mut device = Device::new();
    device.set_power_readings(7550, true);
    device.set_sys_readings(123, 2300);
    let snapshot = device.broadcast_read();
    assert_eq!(snapshot.brightness, Some(64));
    assert_eq!(snapshot.on, Some(true));
    assert_eq!(snapshot.ap_ssid_stored, Some(false));
    assert_eq!(snapshot.ap_psk_stored, Some(false));
    assert_eq!(snapshot.dexcom_user_stored, Some(false));
    assert_eq!(snapshot.dexcom_pass_stored, Some(false));
    assert_eq!(snapshot.bat_attached, Some(true));
    assert_eq!(snapshot.bat_charging, Some(true));
    assert_eq!(snapshot.bat_capacity, Some(7550));
    assert_eq!(snapshot.uptime, Some(123));
    assert_eq!(snapshot.temp, Some(2300));
}

#[test]
fn fields_without_readings_stay_absent() {
    let mut device = Device::new();
    let snapshot = device.broadcast_read();
    assert_eq!(snapshot.bat_capacity, None);
    assert_eq!(snapshot.bat_charging, None);
    assert_eq!(snapshot.uptime, None);
    assert_eq!(snapshot.temp, None);
    // But every component still answered: the lamp and credential flags
    // are present.
    assert_eq!(snapshot.brightness, Some(64));
    assert_eq!(snapshot.ap_ssid_stored, Some(false));
}

#[test]
fn write_then_tick_applies_to_owning_components() {
    let mut device = Device::new();
    device.broadcast_write(&update(
        Some(9),
        Some(false),
        Some("net"),
        Some("pw"),
        Some("user"),
        Some("secret"),
    ));
    device.tick_components();
    assert!(device.has_wifi_creds());
    assert!(device.has_dexcom_creds());
    let snapshot = device.broadcast_read();
    assert_eq!(snapshot.brightness, Some(9));
    assert_eq!(snapshot.on, Some(false));
    assert_eq!(snapshot.ap_ssid_stored, Some(true));
    assert_eq!(snapshot.dexcom_pass_stored, Some(true));
}

#[test]
fn reset_reverts_component_durable_fields() {
    let mut device = Device::new();
    device.broadcast_write(&update(
        Some(9),
        Some(false),
        Some("net"),
        Some("pw"),
        Some("user"),
        Some("secret"),
    ));
    device.tick_components();
    device.persist_dirty();
    device.broadcast_reset();
    device.tick_components();
    assert!(!device.has_wifi_creds());
    assert!(!device.has_dexcom_creds());
    let snapshot = device.broadcast_read();
    assert_eq!(snapshot.brightness, Some(64));
    assert_eq!(snapshot.on, Some(true));
    assert_eq!(snapshot.ap_ssid_stored, Some(false));
}

#[test]
fn queued_requests_apply_in_order() {
    let mut device = Device::new();
    device.broadcast_write(&update(Some(1), None, None, None, None, None));
    device.broadcast_write(&update(Some(2), None, None, None, None, None));
    // One request is handled per tick, oldest first.
    device.tick_components();
    let snapshot = device.broadcast_read();
    assert_eq!(snapshot.brightness, Some(2));
}

#[test]
fn tick_drains_store_queue_and_persists_changes() {
    let mut device = Device::new();
    device.push_update(SettingsAction::Merge(cgmlamp::settings::AppSettings {
        ap_ssid: Some("net".to_string()),
        ap_psk: None,
        dexcom_user: None,
        dexcom_pass: None,
        brightness: None,
    }));
    let jobs = device.tick();
    assert_eq!(device.snapshot().ap_ssid, Some("net".to_string()));
    assert_eq!(jobs.len(), 1);
    assert_eq!(jobs[0].tag, "settings");
    // The change was persisted exactly once: a second tick writes nothing.
    let jobs = device.tick();
    assert!(jobs.is_empty());
}

#[test]
fn dirty_components_persist_exactly_once() {
    let mut device = Device::new();
    device.broadcast_write(&update(
        Some(9),
        None,
        Some("net"),
        Some("pw"),
        Some("user"),
        Some("secret"),
    ));
    let jobs = device.tick();
    let tags: Vec<&str> = jobs.iter().map(|j| j.tag).collect();
    assert_eq!(tags, vec!["wifi_credentials", "dexcom_creds", "lamp_state"]);
    let jobs = device.tick();
    assert!(jobs.is_empty());
}

#[test]
fn recalled_blobs_restore_components() {
    let mut device = Device::new();
    device.broadcast_write(&update(
        Some(9),
        Some(false),
        Some("net"),
        Some("pw"),
        Some("user"),
        Some("secret"),
    ));
    let jobs = device.tick();
    let mut fresh = Device::new();
    for job in &jobs {
        let ok = match job.tag {
            "wifi_credentials" => fresh.recall_wifi(&job.data),
            "dexcom_creds" => fresh.recall_dexcom(&job.data),
            "lamp_state" => fresh.recall_lamp(&job.data),
            "settings" => fresh.recall_store(&job.data),
            other => panic!("unexpected tag {}", other),
        };
        assert!(ok);
    }
    assert!(fresh.has_wifi_creds());
    assert!(fresh.has_dexcom_creds());
    let snapshot = fresh.broadcast_read();
    assert_eq!(snapshot.brightness, Some(9));
    assert_eq!(snapshot.on, Some(false));
}
