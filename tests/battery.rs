use cornix::battery::BatteryProcessor;
use cornix::constants::{BATTERY_EMPTY, BATTERY_FULL};
use cornix::event::{AnalogKind, Event};

fn calibrated() -> BatteryProcessor {
    BatteryProcessor::new(BATTERY_EMPTY, BATTERY_FULL).unwrap()
}

#[test]
fn empty_reading_is_zero_percent() {
    assert_eq!(calibrated().battery_percent(2000), 0);
}

#[test]
fn full_reading_is_hundred_percent() {
    assert_eq!(calibrated().battery_percent(2806), 100);
}

#[test]
fn readings_are_clamped() {
    let p = calibrated();
    assert_eq!(p.battery_percent(0), 0);
    assert_eq!(p.battery_percent(1999), 0);
    assert_eq!(p.battery_percent(2807), 100);
    assert_eq!(p.battery_percent(u16::MAX), 100);
}

#[test]
fn readings_in_between_are_linear() {
    let p = calibrated();
    assert_eq!(p.battery_percent(2403), 50);
    assert_eq!(p.battery_percent(2001), 0);
    assert_eq!(p.battery_percent(2805), 99);
    assert_eq!(p.battery_percent(2202), 25);
}

#[test]
fn calibration_must_be_ordered() {
    assert!(BatteryProcessor::new(2806, 2000).is_none());
    assert!(BatteryProcessor::new(2000, 2000).is_none());
    let p = BatteryProcessor::new(0, 1).unwrap();
    assert_eq!(p.empty(), 0);
    assert_eq!(p.full(), 1);
}

#[test]
fn battery_readings_become_levels() {
    let p = calibrated();
    let e = Event::Analog { kind: AnalogKind::Battery, value: 2806 };
    assert_eq!(p.process(e), Some(Event::BatteryState(100)));
}

#[test]
fn other_events_publish_nothing() {
    let p = calibrated();
    assert_eq!(p.process(Event::Analog { kind: AnalogKind::Joystick(0), value: 2806 }), None);
    assert_eq!(p.process(Event::Matrix { row: 0, col: 0, pressed: true }), None);
    assert_eq!(p.process(Event::Encoder { index: 0, clockwise: true }), None);
    assert_eq!(p.process(Event::BatteryState(40)), None);
}
