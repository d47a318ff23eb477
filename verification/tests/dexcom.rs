use cgmlamp::dexcom::{
    latest_reading, parse_wt_timestamp, reading_from_parts, Dexcom, GlucoseReading, GlucoseTrend,
};
use cgmlamp::server::{ServableDataReq, ServerUpdate};
use cgmlamp::storage::Storable;

#[test]
fn trend_names_map_to_their_arrows() {
    assert_eq!(GlucoseTrend::from_str("DoubleUp"), GlucoseTrend::DoubleUp);
    assert_eq!(GlucoseTrend::from_str("SingleUp"), GlucoseTrend::SingleUp);
    assert_eq!(GlucoseTrend::from_str("FortyFiveUp"), GlucoseTrend::FortyFiveUp);
    assert_eq!(GlucoseTrend::from_str("Flat"), GlucoseTrend::Flat);
    assert_eq!(GlucoseTrend::from_str("FortyFiveDown"), GlucoseTrend::FortyFiveDown);
    assert_eq!(GlucoseTrend::from_str("SingleDown"), GlucoseTrend::SingleDown);
    assert_eq!(GlucoseTrend::from_str("DoubleDown"), GlucoseTrend::DoubleDown);
    assert_eq!(GlucoseTrend::from_str("NotComputable"), GlucoseTrend::NotComputable);
    assert_eq!(GlucoseTrend::from_str("RateOutOfRange"), GlucoseTrend::RateOutOfRange);
}

#[test]
fn unknown_trend_names_mean_no_trend() {
    assert_eq!(GlucoseTrend::from_str(""), GlucoseTrend::NoTrend);
    assert_eq!(GlucoseTrend::from_str("doubleup"), GlucoseTrend::NoTrend);
    assert_eq!(GlucoseTrend::from_str("Sideways"), GlucoseTrend::NoTrend);
}

#[test]
fn fresh_reading_is_zeroed() {
    let r = GlucoseReading::new();
    assert_eq!(r.time, 0);
    assert_eq!(r.value, 0);
    assert_eq!(r.trend, GlucoseTrend::NoTrend);
}

#[test]
fn timestamp_between_parentheses_is_read() {
    assert_eq!(parse_wt_timestamp("Date(1699999999000)"), Some(1699999999000));
    assert_eq!(parse_wt_timestamp("(42)"), Some(42));
    assert_eq!(parse_wt_timestamp("Date(0)"), Some(0));
}

#[test]
fn malformed_time_fields_carry_no_timestamp() {
    assert_eq!(parse_wt_timestamp("Date()"), None);
    assert_eq!(parse_wt_timestamp("Date(12a4)"), None);
    assert_eq!(parse_wt_timestamp(")("), None);
    assert_eq!(parse_wt_timestamp(""), None);
    assert_eq!(parse_wt_timestamp("Date(-5)"), None);
}

#[test]
fn timestamp_scan_offsets_without_parentheses() {
    // Without an opening parenthesis the scan starts at the second
    // character; without a closing one it runs to the end.
    assert_eq!(parse_wt_timestamp("1234"), Some(234));
    assert_eq!(parse_wt_timestamp("Date(77"), Some(77));
}

#[test]
fn oversized_timestamp_is_rejected() {
    assert_eq!(parse_wt_timestamp("Date(9223372036854775807)"), Some(i64::MAX));
    assert_eq!(parse_wt_timestamp("Date(9223372036854775808)"), None);
    assert_eq!(parse_wt_timestamp("Date(99999999999999999999999)"), None);
}

#[test]
fn reading_is_assembled_from_its_parts() {
    let r = reading_from_parts("Date(1700000000)", 142, "Flat").unwrap();
    assert_eq!(r.time, 1700000000);
    assert_eq!(r.value, 142);
    assert_eq!(r.trend, GlucoseTrend::Flat);
    assert!(reading_from_parts("no timestamp here", 142, "Flat").is_none());
}

#[test]
fn latest_reading_is_the_first_of_the_batch() {
    let a = reading_from_parts("(1)", 100, "Flat").unwrap();
    let b = reading_from_parts("(2)", 200, "SingleUp").unwrap();
    assert_eq!(latest_reading(&vec![a, b]), Some(a));
    assert_eq!(latest_reading(&vec![]), None);
}

#[test]
fn component_tracks_credentials_and_dirtiness() {
    let mut d = Dexcom::new();
    assert!(!d.has_creds());
    let rsp = d.handle_request(&ServableDataReq::Write(ServerUpdate {
        brightness: None,
        on: None,
        ap_ssid: None,
        ap_psk: None,
        dexcom_user: Some("user".to_string()),
        dexcom_pass: Some("secret".to_string()),
    }));
    assert!(rsp.is_none());
    assert!(d.has_creds());
    assert!(d.need_to_save());
    let rsp = d.handle_request(&ServableDataReq::Get).unwrap();
    assert_eq!(rsp.dexcom_user_stored, Some(true));
    assert_eq!(rsp.dexcom_pass_stored, Some(true));
    d.handle_request(&ServableDataReq::Reset);
    assert!(!d.has_creds());
}

#[test]
fn component_round_trip_restores_credentials() {
    let mut d = Dexcom::new();
    d.handle_request(&ServableDataReq::Write(ServerUpdate {
        brightness: None,
        on: None,
        ap_ssid: None,
        ap_psk: None,
        dexcom_user: Some("user".to_string()),
        dexcom_pass: Some("p\u{00e4}ss".to_string()),
    }));
    let blob = d.store_data();
    let mut restored = Dexcom::new();
    assert!(restored.recall_data(&blob));
    assert!(restored.has_creds());
    assert_eq!(restored.user_name().as_deref(), Some("user"));
    assert_eq!(restored.user_pass().as_deref(), Some("p\u{00e4}ss"));
    assert_eq!(d.store_tag(), "dexcom_creds");
}

#[test]
fn dexcom_all_absent_round_trip() {
    let d = Dexcom::new();
    let blob = d.store_data();
    let mut restored = Dexcom::new();
    assert!(restored.recall_data(&blob));
    assert!(!restored.has_creds());
    assert!(restored.user_name().is_none());
    assert!(restored.user_pass().is_none());
}
