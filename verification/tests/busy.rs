//! The busy indication.

use porthole_gui::busy::{BusyIndicator, BUSY_DELAY};

#[test]
fn nothing_appears_before_the_delay() {
    assert_eq!(BUSY_DELAY, 500);
    let mut busy = BusyIndicator::new();
    let button = busy.disable_while_busy(true);
    assert!(!busy.is_busy());
    assert!(busy.control_is_sensitive(button));

    assert!(busy.begin());
    assert!(busy.is_busy());
    assert!(!busy.is_showing());
    assert!(!busy.control_is_sensitive(button));

    assert!(busy.end());
    assert!(!busy.is_busy());
    assert!(!busy.is_showing());
    assert!(busy.control_is_sensitive(button));
}

#[test]
fn the_spinner_belongs_to_the_last_operation_not_the_first() {
    let mut busy = BusyIndicator::new();
    let button = busy.disable_while_busy(true);
    assert!(busy.begin());
    assert!(!busy.begin());
    busy.delay_elapsed();
    assert!(busy.is_showing());
    assert!(!busy.end());
    assert!(busy.is_showing());
    assert!(!busy.control_is_sensitive(button));
    assert!(!busy.end());
    assert!(!busy.is_showing());
    assert!(busy.control_is_sensitive(button));
}

#[test]
fn a_control_registered_while_busy_is_held_at_once_and_stays_held() {
    let mut busy = BusyIndicator::new();
    busy.begin();
    let button = busy.disable_while_busy(true);
    assert!(!busy.control_is_sensitive(button));
    busy.set_control(button, true);
    assert!(!busy.control_is_sensitive(button));
    busy.end();
    assert!(busy.control_is_sensitive(button));
    busy.set_control(button, false);
    assert!(!busy.control_is_sensitive(button));
}

#[test]
fn a_delay_that_runs_out_over_nothing_shows_nothing() {
    let mut busy = BusyIndicator::default();
    busy.delay_elapsed();
    assert!(!busy.is_showing());
}
