use sorting_cell::reader::{Reader, Sensor};
use sorting_cell::types::{Color, Presence, SensorState};

#[test]
fn freshness_expiry_window() {
    let mut reader: Reader<Presence> = Reader::new(100, 0);
    assert_eq!(*reader.value(), None);

    reader.update(Some(Presence { present: true }), 0);
    assert_eq!(*reader.value(), Some(Presence { present: true }));

    reader.update(None, 99);
    assert_eq!(*reader.value(), Some(Presence { present: true }));

    reader.update(None, 101);
    assert_eq!(*reader.value(), None);

    reader.update(Some(Presence { present: false }), 150);
    assert_eq!(*reader.value(), Some(Presence { present: false }));
}

#[test]
fn expiry_boundary_is_strict() {
    let mut reader: Reader<Presence> = Reader::new(100, 0);
    reader.update(Some(Presence { present: true }), 0);
    // Exactly the window: silence of 100 ms is not yet expiry.
    reader.update(None, 100);
    assert_eq!(*reader.value(), Some(Presence { present: true }));
    reader.update(None, 101);
    assert_eq!(*reader.value(), None);
}

#[test]
fn delivery_resets_the_freshness_clock() {
    let mut reader: Reader<Presence> = Reader::new(100, 0);
    reader.update(Some(Presence { present: true }), 50);
    // A fresh delivery at 120 restarts the window from 120.
    reader.update(Some(Presence { present: true }), 120);
    reader.update(None, 219);
    assert_eq!(*reader.value(), Some(Presence { present: true }));
    reader.update(None, 221);
    assert_eq!(*reader.value(), None);
}

#[test]
fn value_never_invented() {
    let mut reader: Reader<Presence> = Reader::new(100, 0);
    reader.update(None, 10);
    reader.update(None, 500);
    assert_eq!(*reader.value(), None);
}

#[test]
fn gated_sensor_suppressed_while_unavailable() {
    let red = Color { red: 255, green: 0, blue: 0 };
    let mut sensor: Sensor<Color> = Sensor::new(100, 0);
    // The value reader holds a fresh sample, but availability reads off.
    sensor.update(Some(SensorState { is_on: false }), Some(red), 0);
    assert_eq!(sensor.value(), None);
    assert!(!sensor.is_offline());

    // The link switches on: the same cached sample becomes visible.
    sensor.update(Some(SensorState { is_on: true }), None, 10);
    assert_eq!(sensor.value(), Some(red));
}

#[test]
fn gated_sensor_offline_without_availability_signal() {
    let mut sensor: Sensor<Color> = Sensor::new(100, 0);
    sensor.update(None, Some(Color { red: 0, green: 255, blue: 0 }), 0);
    assert_eq!(sensor.value(), None);
    assert!(sensor.is_offline());
}

#[test]
fn gated_sensor_availability_expires() {
    let blue = Color { red: 0, green: 0, blue: 255 };
    let mut sensor: Sensor<Color> = Sensor::new(100, 0);
    sensor.update(Some(SensorState { is_on: true }), Some(blue), 0);
    assert_eq!(sensor.value(), Some(blue));
    // The availability signal goes silent past its window while the value
    // keeps arriving: the sensor goes offline and the value is suppressed.
    sensor.update(None, Some(blue), 200);
    assert_eq!(sensor.value(), None);
    assert!(sensor.is_offline());
}
