use output_driver::input::ain_map;
use output_driver::ports::{DacTransport, OutPin, PulseTimer, TransportError};

#[test]
fn pin_drives_both_levels() {
    let mut pin = OutPin::new(false);
    assert!(!pin.level());
    pin.set_high();
    assert!(pin.level());
    pin.set_low();
    assert!(!pin.level());
}

#[test]
fn transport_records_writes_in_order() {
    let mut dac = DacTransport::new();
    assert_eq!(dac.write_count(), 0);
    assert_eq!(dac.write_channels(1, 2), Ok(()));
    assert_eq!(dac.write_channels(3, 4), Ok(()));
    assert_eq!(dac.write_count(), 2);
    assert_eq!(dac.write_at(0), (1, 2));
    assert_eq!(dac.write_at(1), (3, 4));
}

#[test]
fn offline_transport_rejects_and_keeps_history() {
    let mut dac = DacTransport::new();
    assert_eq!(dac.write_channels(5, 0), Ok(()));
    dac.set_online(false);
    assert_eq!(dac.write_channels(6, 0), Err(TransportError));
    assert_eq!(dac.write_count(), 1);
    assert_eq!(dac.write_at(0), (5, 0));
}

#[test]
fn timer_reports_each_period_once() {
    let mut timer = PulseTimer::new();
    // Unarmed: nothing pending, ticks are ignored.
    assert!(!timer.poll_elapsed());
    timer.tick();
    assert!(!timer.poll_elapsed());
    timer.arm(10);
    assert!(!timer.poll_elapsed());
    timer.tick();
    assert!(timer.poll_elapsed());
    assert!(!timer.poll_elapsed());
    // Re-arming starts a fresh period.
    timer.tick();
    timer.arm(20);
    assert!(!timer.poll_elapsed());
}

#[test]
fn ain_map_exact_values() {
    assert_eq!(ain_map(0, 0, 100), 0);
    assert_eq!(ain_map(4095, 0, 100), 100);
    assert_eq!(ain_map(2048, 0, 100), 50);
    assert_eq!(ain_map(1000, 10, 20), 12);
    assert_eq!(ain_map(4095, 5, 5), 5);
}

#[test]
fn ain_map_saturates_overrange_readings() {
    assert_eq!(ain_map(4096, 0, 100), 100);
    assert_eq!(ain_map(u16::MAX, 0, 1000), 1000);
}
