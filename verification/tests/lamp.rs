use cgmlamp::lamp::{get_color_in_sweep, set_bright, Lamp, LedState, Rgb};
use cgmlamp::server::{ServableDataReq, ServerUpdate};
use cgmlamp::storage::Storable;

fn update(brightness: Option<u8>, on: Option<bool>) -> ServerUpdate {
    ServerUpdate {
        brightness,
        on,
        ap_ssid: None,
        ap_psk: None,
        dexcom_user: None,
        dexcom_pass: None,
    }
}

#[test]
fn low_value_breathes_red() {
    // Value 10 lies in the low band.
    assert_eq!(LedState::from_glucose(10), LedState::Breathe(Rgb::new(255, 0, 0)));
}

#[test]
fn value_sixty_sits_five_ninetysevenths_along_the_red_green_sweep() {
    // 60 is 5 steps into the 97-step red-to-green sweep: red has come down
    // by ceil(5 * 255 / 97) = 14, green has risen by floor(5 * 255 / 97) = 13.
    assert_eq!(LedState::from_glucose(60), LedState::Steady(Rgb::new(241, 13, 0)));
}

#[test]
fn high_band_breathes_purple() {
    assert_eq!(LedState::from_glucose(400), LedState::Breathe(Rgb::new(255, 0, 255)));
}

#[test]
fn band_boundaries_map_exactly() {
    assert_eq!(LedState::from_glucose(0), LedState::Breathe(Rgb::new(255, 0, 0)));
    assert_eq!(LedState::from_glucose(54), LedState::Breathe(Rgb::new(255, 0, 0)));
    assert_eq!(LedState::from_glucose(55), LedState::Steady(Rgb::new(255, 0, 0)));
    assert_eq!(LedState::from_glucose(152), LedState::Steady(Rgb::new(0, 255, 0)));
    assert_eq!(LedState::from_glucose(250), LedState::Steady(Rgb::new(0, 0, 255)));
    assert_eq!(LedState::from_glucose(300), LedState::Breathe(Rgb::new(255, 0, 255)));
    assert_eq!(LedState::from_glucose(499), LedState::Breathe(Rgb::new(255, 0, 255)));
    assert_eq!(LedState::from_glucose(500), LedState::Breathe(Rgb::new(255, 255, 255)));
}

#[test]
fn out_of_band_values_breathe_white() {
    assert_eq!(LedState::from_glucose(-5), LedState::Breathe(Rgb::new(255, 255, 255)));
    assert_eq!(LedState::from_glucose(1000), LedState::Breathe(Rgb::new(255, 255, 255)));
}

#[test]
fn sweep_endpoints_and_midpoint() {
    let red = Rgb::new(255, 0, 0);
    let green = Rgb::new(0, 255, 0);
    assert_eq!(get_color_in_sweep(&red, &green, 100, 0), Rgb::new(255, 0, 0));
    // Half way: green has risen to floor(50 * 255 / 100) = 127, red has
    // come down by ceil(50 * 255 / 100) = 128.
    assert_eq!(get_color_in_sweep(&red, &green, 100, 50), Rgb::new(127, 127, 0));
    assert_eq!(get_color_in_sweep(&red, &green, 100, 99), Rgb::new(2, 252, 0));
}

#[test]
fn set_bright_scales_each_channel() {
    let white = Rgb::new(255, 255, 255);
    assert_eq!(set_bright(&white, 128, true), Rgb::new(128, 128, 128));
    assert_eq!(set_bright(&white, 0, true), Rgb::new(0, 0, 0));
    assert_eq!(set_bright(&white, 255, true), Rgb::new(255, 255, 255));
    assert_eq!(set_bright(&white, 128, false), Rgb::new(0, 0, 0));
    let teal = Rgb::new(0, 200, 100);
    assert_eq!(set_bright(&teal, 51, true), Rgb::new(0, 40, 20));
}

#[test]
fn lamp_renders_black_when_off_or_idle() {
    let mut lamp = Lamp::new();
    assert_eq!(lamp.current_pixel(), Rgb::new(0, 0, 0));
    lamp.set_color(LedState::Steady(Rgb::new(255, 0, 0)));
    lamp.set_brightness(255);
    assert_eq!(lamp.current_pixel(), Rgb::new(255, 0, 0));
    lamp.off();
    assert_eq!(lamp.current_pixel(), Rgb::new(0, 0, 0));
}

#[test]
fn change_brightness_clamps() {
    let mut lamp = Lamp::new();
    lamp.set_brightness(250);
    lamp.saved();
    lamp.change_brightness(100);
    assert_eq!(lamp.brightness, 255);
    lamp.change_brightness(-1000);
    assert_eq!(lamp.brightness, 0);
    assert!(lamp.need_to_save());
}

#[test]
fn toggle_flips_and_schedules_persistence() {
    let mut lamp = Lamp::new();
    assert!(lamp.on);
    lamp.toggle();
    assert!(!lamp.on);
    assert!(lamp.need_to_save());
    lamp.saved();
    lamp.toggle();
    assert!(lamp.on);
}

#[test]
fn lamp_answers_read_with_its_fields() {
    let mut lamp = Lamp::new();
    lamp.set_brightness(200);
    let rsp = lamp.handle_request(&ServableDataReq::Get).unwrap();
    assert_eq!(rsp.brightness, Some(200));
    assert_eq!(rsp.on, Some(true));
    assert_eq!(rsp.uptime, None);
}

#[test]
fn lamp_applies_recognised_write_fields() {
    let mut lamp = Lamp::new();
    lamp.saved();
    let rsp = lamp.handle_request(&ServableDataReq::Write(update(Some(30), Some(false))));
    assert!(rsp.is_none());
    assert_eq!(lamp.brightness, 30);
    assert!(!lamp.on);
    assert!(lamp.need_to_save());
}

#[test]
fn lamp_reset_restores_defaults() {
    let mut lamp = Lamp::new();
    lamp.set_brightness(1);
    lamp.off();
    lamp.handle_request(&ServableDataReq::Reset);
    assert_eq!(lamp.brightness, 64);
    assert!(lamp.on);
    assert!(lamp.need_to_save());
}

#[test]
fn lamp_round_trip_restores_durable_fields() {
    let mut lamp = Lamp::new();
    lamp.set_brightness(77);
    lamp.off();
    let blob = lamp.store_data();
    let mut restored = Lamp::new();
    assert!(restored.recall_data(&blob));
    assert_eq!(restored.brightness, 77);
    assert!(!restored.on);
    assert_eq!(lamp.store_tag(), "lamp_state");
}

#[test]
fn lamp_rejects_short_blob() {
    let mut lamp = Lamp::new();
    assert!(!lamp.recall_data(&[5]));
    assert!(!lamp.recall_data(&[5, 1, 0]));
    assert!(!lamp.recall_data(&[5, 2]));
    assert_eq!(lamp.brightness, 64);
}
