use output_driver::lm::Lm;
use output_driver::ports::{DacTransport, OutPin, PulseTimer, TransportError};
use output_driver::status::{Freq, State};

fn fresh_driver() -> Lm {
    Lm::new(
        DacTransport::new(),
        PulseTimer::new(),
        OutPin::new(false),
        OutPin::new(false),
    )
}

#[test]
fn new_starts_safe() {
    let lm = fresh_driver();
    assert!(!lm.enabled());
    assert!(!lm.powered());
    assert_eq!(lm.pulse_state(), None);
    let st = lm.status();
    assert_eq!(st.state(), State::Off);
    assert_eq!(st.pwm(), 0);
    assert!(!st.pwm_oe());
    assert!(!st.pwm_relay());
    assert_eq!(st.freq(), Freq::Continuous);
    assert_eq!(st.pulse(), None);
    // Construction drives the device to a safe state: zero committed.
    assert_eq!(lm.dac().write_count(), 2);
    assert_eq!(lm.dac().write_at(0), (0, 0));
    assert_eq!(lm.dac().write_at(1), (0, 0));
}

#[test]
fn setpoint_while_disabled_is_silent_noop() {
    let mut lm = fresh_driver();
    let before = lm.dac().write_count();
    assert_eq!(lm.set_power_pulse(100, None), Ok(()));
    assert!(!lm.powered());
    assert_eq!(lm.status().pwm(), 0);
    assert_eq!(lm.dac().write_count(), before);
}

#[test]
fn setpoint_commits_single_write() {
    let mut lm = fresh_driver();
    lm.set_enabled(true);
    let before = lm.dac().write_count();
    assert_eq!(lm.set_power_pulse(1234, None), Ok(()));
    assert_eq!(lm.status().pwm(), 1234);
    assert!(lm.powered());
    assert_eq!(lm.dac().write_count(), before + 1);
    assert_eq!(lm.dac().write_at(before), (1234, 0));
}

#[test]
fn setpoint_full_range() {
    let mut lm = fresh_driver();
    lm.set_enabled(true);
    for power in [0u16, 1, 2047, 4095] {
        let before = lm.dac().write_count();
        assert_eq!(lm.set_power_pulse(power, None), Ok(()));
        assert_eq!(lm.status().pwm(), power);
        assert_eq!(lm.dac().write_at(before), (power, 0));
    }
}

#[test]
fn setpoint_saturates_no_wraparound() {
    let mut lm = fresh_driver();
    lm.set_enabled(true);
    for power in [4096u16, 5000, u16::MAX] {
        let before = lm.dac().write_count();
        assert_eq!(lm.set_power_pulse(power, None), Ok(()));
        assert_eq!(lm.status().pwm(), 4095);
        assert_eq!(lm.dac().write_at(before), (4095, 0));
    }
}

#[test]
fn enable_does_not_change_setpoint() {
    let mut lm = fresh_driver();
    lm.enable();
    assert!(lm.enabled());
    assert_eq!(lm.set_power_pulse(300, None), Ok(()));
    let before = lm.dac().write_count();
    lm.set_enabled(true);
    assert_eq!(lm.status().pwm(), 300);
    assert_eq!(lm.dac().write_count(), before);
}

#[test]
fn disable_commits_zero_from_any_state() {
    let mut lm = fresh_driver();
    lm.set_enabled(true);
    assert_eq!(lm.set_power_pulse(1000, None), Ok(()));
    let before = lm.dac().write_count();
    lm.set_enabled(false);
    // Exactly one more committed write, and it is the zero pair; the trace
    // law shows it precedes the shutdown assertion.
    assert_eq!(lm.dac().write_count(), before + 1);
    assert_eq!(lm.dac().write_at(before), (0, 0));
    assert!(!lm.enabled());
    assert_eq!(lm.status().pwm(), 0);
    assert_eq!(lm.status().state(), State::Off);
}

#[test]
fn disable_while_disabled_still_commits_zero() {
    let mut lm = fresh_driver();
    let before = lm.dac().write_count();
    lm.set_enabled(false);
    assert_eq!(lm.dac().write_count(), before + 1);
    assert_eq!(lm.dac().write_at(before), (0, 0));
    assert!(!lm.enabled());
}

#[test]
fn power_off_twice_is_idempotent() {
    let mut lm = fresh_driver();
    lm.set_enabled(true);
    assert_eq!(lm.set_power_pulse(500, None), Ok(()));
    assert_eq!(lm.power_off(), Ok(()));
    let first = lm.status();
    let count_after_first = lm.dac().write_count();
    assert_eq!(lm.power_off(), Ok(()));
    let second = lm.status();
    // Same final state...
    assert_eq!(second.state(), first.state());
    assert_eq!(second.pwm(), first.pwm());
    assert_eq!(second.pwm_oe(), first.pwm_oe());
    assert_eq!(second.freq(), first.freq());
    assert_eq!(second.pulse(), first.pulse());
    // ...and the only repeat effect is one more zero write, which cannot
    // change the held output.
    assert_eq!(lm.dac().write_count(), count_after_first + 1);
    assert_eq!(lm.dac().write_at(count_after_first), (0, 0));
}

#[test]
fn transport_error_is_surfaced_and_state_kept() {
    let mut lm = fresh_driver();
    lm.set_enabled(true);
    assert_eq!(lm.set_power_pulse(10, None), Ok(()));
    lm.set_transport_online(false);
    let before = lm.dac().write_count();
    assert_eq!(lm.set_power_pulse(77, None), Err(TransportError));
    // Cached state unchanged on failure, so a retry is safe.
    assert_eq!(lm.status().pwm(), 10);
    assert_eq!(lm.dac().write_count(), before);
    lm.set_transport_online(true);
    assert_eq!(lm.set_power_pulse(77, None), Ok(()));
    assert_eq!(lm.status().pwm(), 77);
    assert_eq!(lm.dac().write_at(before), (77, 0));
}

#[test]
fn status_reports_enabled_state() {
    let mut lm = fresh_driver();
    lm.set_enabled(true);
    let st = lm.status();
    assert_eq!(st.state(), State::On);
    assert!(st.pwm_oe());
    assert!(st.pwm_relay());
    lm.set_enabled(false);
    assert_eq!(lm.status().state(), State::Off);
}
