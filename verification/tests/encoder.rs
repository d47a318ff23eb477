use cgmlamp::dimmer::LightDimmer;
use cgmlamp::encoder::{Direction, Encoder};

#[test]
fn quadrature_codes_decode_to_directions() {
    for s in [1u8, 7, 8, 14] {
        assert_eq!(Direction::from(s), Direction::Clockwise);
    }
    for s in [2u8, 4, 11, 13] {
        assert_eq!(Direction::from(s), Direction::CounterClockwise);
    }
    for s in [0u8, 3, 5, 6, 9, 10, 12, 15] {
        assert_eq!(Direction::from(s), Direction::NoTurn);
    }
}

#[test]
fn update_keeps_the_last_phase_pair() {
    let mut e = Encoder::new();
    // Both phases high, then phase a drops: old pair 00, new pair 01
    // (a low contributes bit 4), code 4: one counter-clockwise step.
    assert_eq!(e.update(true, false), Direction::CounterClockwise);
    assert_eq!(e.state, 1);
    // Phase b drops too: old pair 01, new pair 11, code 13.
    assert_eq!(e.update(true, true), Direction::CounterClockwise);
    assert_eq!(e.state, 3);
    // No movement: the same pair again decodes to no turn.
    assert_eq!(e.update(true, true), Direction::NoTurn);
}

#[test]
fn dimmer_reports_change_since_last_check() {
    let mut d = LightDimmer::new();
    assert_eq!(d.get_change(5), 5);
    assert_eq!(d.get_change(5), 0);
    assert_eq!(d.get_change(2), -3);
    assert_eq!(d.get_change(-10), -12);
}
