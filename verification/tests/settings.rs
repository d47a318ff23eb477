use cgmlamp::settings::{AppSettings, AppSettingsDiff, SettingsAction, Store};
use cgmlamp::storage::Storable;

fn delta(
    ssid: Option<&str>,
    psk: Option<&str>,
    user: Option<&str>,
    pass: Option<&str>,
    brightness: Option<u8>,
) -> AppSettings {
    AppSettings {
        ap_ssid: ssid.map(|s| s.to_string()),
        ap_psk: psk.map(|s| s.to_string()),
        dexcom_user: user.map(|s| s.to_string()),
        dexcom_pass: pass.map(|s| s.to_string()),
        brightness,
    }
}

#[test]
fn new_record_is_empty_with_default_brightness() {
    let s = AppSettings::new();
    assert_eq!(s.ap_ssid, None);
    assert_eq!(s.ap_psk, None);
    assert_eq!(s.dexcom_user, None);
    assert_eq!(s.dexcom_pass, None);
    assert_eq!(s.brightness, Some(64));
}

#[test]
fn network_creds_present_after_merge_remote_absent() {
    // A store starting empty that merges only the network pair reports
    // network credentials present and remote credentials absent.
    let mut s = AppSettings::new();
    let changed = s.merge(&delta(Some("net"), Some("pw"), None, None, None));
    assert!(changed);
    assert!(s.has_wifi_creds());
    assert!(!s.has_dexcom_creds());
    assert_eq!(s.ap_ssid, Some("net".to_string()));
    assert_eq!(s.ap_psk, Some("pw".to_string()));
}

#[test]
fn merge_overwrites_present_fields_only() {
    let mut s = AppSettings::new();
    s.merge(&delta(Some("one"), Some("alpha"), Some("u"), None, Some(10)));
    let changed = s.merge(&delta(Some("two"), None, None, None, None));
    assert!(changed);
    assert_eq!(s.ap_ssid, Some("two".to_string()));
    assert_eq!(s.ap_psk, Some("alpha".to_string()));
    assert_eq!(s.dexcom_user, Some("u".to_string()));
    assert_eq!(s.dexcom_pass, None);
    assert_eq!(s.brightness, Some(10));
}

#[test]
fn empty_delta_changes_nothing() {
    let mut s = AppSettings::new();
    let changed = s.merge(&delta(None, None, None, None, None));
    assert!(!changed);
    assert_eq!(s.brightness, Some(64));
}

#[test]
fn merge_twice_same_delta_is_merge_once() {
    // Merge idempotence on concrete values.
    let d = delta(Some("net"), None, Some("user"), None, Some(99));
    let mut once = AppSettings::new();
    once.merge(&delta(Some("old"), Some("kept"), None, None, None));
    let mut twice = once.clone();
    once.merge(&d);
    twice.merge(&d);
    twice.merge(&d);
    assert_eq!(once.ap_ssid, twice.ap_ssid);
    assert_eq!(once.ap_psk, twice.ap_psk);
    assert_eq!(once.dexcom_user, twice.dexcom_user);
    assert_eq!(once.dexcom_pass, twice.dexcom_pass);
    assert_eq!(once.brightness, twice.brightness);
}

#[test]
fn diff_clamps_at_upper_bound() {
    let mut s = AppSettings::new();
    s.merge(&delta(None, None, None, None, Some(250)));
    let mut d = AppSettingsDiff::new();
    d.set_brightness_diff(100);
    let changed = s.modify(&d);
    assert!(changed);
    assert_eq!(s.brightness, Some(255));
}

#[test]
fn diff_clamps_at_lower_bound() {
    let mut s = AppSettings::new();
    s.merge(&delta(None, None, None, None, Some(5)));
    let mut d = AppSettingsDiff::new();
    d.set_brightness_diff(-100);
    let changed = s.modify(&d);
    assert!(changed);
    assert_eq!(s.brightness, Some(0));
}

#[test]
fn diff_sequence_stays_in_range() {
    let mut s = AppSettings::new();
    let deltas: [i32; 8] = [300, -1000, 17, 2_000_000_000, -3, 1, -2_000_000_000, 128];
    for c in deltas {
        let mut d = AppSettingsDiff::new();
        d.set_brightness_diff(c);
        s.modify(&d);
        let b = s.brightness.unwrap();
        assert!(b <= 255);
    }
    assert_eq!(s.brightness, Some(128));
}

#[test]
fn diff_at_ceiling_reports_no_change() {
    let mut s = AppSettings::new();
    s.merge(&delta(None, None, None, None, Some(255)));
    let mut d = AppSettingsDiff::new();
    d.set_brightness_diff(40);
    let changed = s.modify(&d);
    assert!(!changed);
    assert_eq!(s.brightness, Some(255));
}

#[test]
fn diff_without_brightness_level_is_noop() {
    let mut s = AppSettings::new();
    s.ap_ssid = Some("net".to_string());
    s.brightness = None;
    let mut d = AppSettingsDiff::new();
    d.set_brightness_diff(10);
    let changed = s.modify(&d);
    assert!(!changed);
    assert_eq!(s.brightness, None);
}

#[test]
fn store_marks_dirty_on_change_only() {
    let mut store = Store::new();
    assert!(!store.need_to_save());
    store.set(&delta(None, None, None, None, None));
    assert!(!store.need_to_save());
    store.set(&delta(Some("net"), None, None, None, None));
    assert!(store.need_to_save());
    store.saved();
    assert!(!store.need_to_save());
}

#[test]
fn store_narrow_resets_clear_only_their_fields() {
    let mut store = Store::new();
    store.set(&delta(Some("net"), Some("pw"), Some("u"), Some("p"), Some(7)));
    store.reset_wifi_creds();
    let s = store.snapshot();
    assert_eq!(s.ap_ssid, None);
    assert_eq!(s.ap_psk, None);
    assert_eq!(s.dexcom_user, Some("u".to_string()));
    assert_eq!(s.dexcom_pass, Some("p".to_string()));
    assert_eq!(s.brightness, Some(7));
    store.reset_dexcom_creds();
    let s = store.snapshot();
    assert_eq!(s.dexcom_user, None);
    assert_eq!(s.dexcom_pass, None);
    assert_eq!(s.brightness, Some(7));
}

#[test]
fn store_drains_one_queued_update_per_check() {
    let mut store = Store::new();
    store.push_update(SettingsAction::Merge(delta(Some("a"), None, None, None, None)));
    store.push_update(SettingsAction::Reset);
    store.check_updates();
    assert_eq!(store.snapshot().ap_ssid, Some("a".to_string()));
    store.check_updates();
    assert_eq!(store.snapshot().ap_ssid, None);
    assert_eq!(store.snapshot().brightness, Some(64));
    // Nothing queued: a further check changes nothing.
    store.check_updates();
    assert_eq!(store.snapshot().brightness, Some(64));
}

#[test]
fn store_round_trip_restores_durable_record() {
    let mut store = Store::new();
    store.set(&delta(Some("net"), Some("pw"), Some("user"), None, Some(200)));
    let blob = store.store_data();
    let mut restored = Store::new();
    assert!(restored.recall_data(&blob));
    let a = store.snapshot();
    let b = restored.snapshot();
    assert_eq!(a.ap_ssid, b.ap_ssid);
    assert_eq!(a.ap_psk, b.ap_psk);
    assert_eq!(a.dexcom_user, b.dexcom_user);
    assert_eq!(a.dexcom_pass, b.dexcom_pass);
    assert_eq!(a.brightness, b.brightness);
}

#[test]
fn store_rejects_garbage_blob() {
    let mut store = Store::new();
    store.set(&delta(Some("keep"), None, None, None, None));
    assert!(!store.recall_data(&[9, 9, 9]));
    assert_eq!(store.snapshot().ap_ssid, Some("keep".to_string()));
}

#[test]
fn store_tag_is_fixed() {
    let store = Store::new();
    assert_eq!(store.store_tag(), "settings");
}

#[test]
fn compiled_in_config_defaults_are_placeholders() {
    let c = cgmlamp::config::Config::new();
    assert_eq!(c.wifi_ssid, " ");
    assert_eq!(c.wifi_pass, " ");
    assert_eq!(c.dexcom_user, " ");
    assert_eq!(c.dexcom_pass, " ");
}

#[test]
fn oversized_request_bodies_are_rejected() {
    assert!(cgmlamp::server::payload_fits(0));
    assert!(cgmlamp::server::payload_fits(1024));
    assert!(!cgmlamp::server::payload_fits(1025));
}
