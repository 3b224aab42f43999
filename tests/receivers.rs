use communications::receivers::{CommTransceiver, NavReceiver};

const MS: u64 = 1_000_000;

/// Packed code of "E": one dot.
const CODE_E: u64 = 69 - 31;

/// Ticks a receiver past the pause so that the dot of "E" is keyed.
fn to_first_dot(r: &mut NavReceiver, ok: bool) {
    r.set_active_identifier(CODE_E);
    for _ in 0..1199 {
        r.update(MS, ok);
    }
}

#[test]
fn comm_transceiver_power() {
    let mut t = CommTransceiver::new(3);
    assert!(!t.is_powered());
    assert_eq!(t.powered_by(), 3);
    t.receive_power(true);
    assert!(t.is_powered());
    t.receive_power(false);
    assert!(!t.is_powered());
}

#[test]
fn nav_receiver_starts_silent() {
    let r = NavReceiver::new(7);
    assert!(!r.is_powered());
    assert_eq!(r.powered_by(), 7);
    assert!(!r.output());
}

#[test]
fn powered_and_allowed_sounds() {
    let mut r = NavReceiver::new(1);
    r.receive_power(true);
    to_first_dot(&mut r, true);
    assert!(r.output());
}

#[test]
fn unpowered_is_silent() {
    let mut r = NavReceiver::new(1);
    to_first_dot(&mut r, true);
    assert!(!r.output());
    // the identifier kept running while unpowered: power now and it sounds
    r.receive_power(true);
    r.update(MS, true);
    assert!(r.output());
}

#[test]
fn not_allowed_is_silent() {
    let mut r = NavReceiver::new(1);
    r.receive_power(true);
    to_first_dot(&mut r, false);
    assert!(!r.output());
    r.update(MS, true);
    assert!(r.output());
    r.update(MS, false);
    assert!(!r.output());
}

#[test]
fn power_loss_silences_at_next_update() {
    let mut r = NavReceiver::new(1);
    r.receive_power(true);
    to_first_dot(&mut r, true);
    assert!(r.output());
    r.receive_power(false);
    r.update(MS, true);
    assert!(!r.output());
}
