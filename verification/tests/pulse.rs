use output_driver::lm::Lm;
use output_driver::ports::{DacTransport, OutPin, PulseTimer, TransportError};
use output_driver::status::Freq;

fn pulsing_driver(power: u16, freq: u32) -> Lm {
    let mut lm = Lm::new(
        DacTransport::new(),
        PulseTimer::new(),
        OutPin::new(false),
        OutPin::new(false),
    );
    lm.set_enabled(true);
    assert_eq!(lm.set_power_pulse(power, Some(Freq::Periodic(freq))), Ok(()));
    lm
}

#[test]
fn pulse_starts_in_on_half() {
    let lm = pulsing_driver(2048, 10);
    assert_eq!(lm.pulse_state(), Some(true));
    assert_eq!(lm.status().freq(), Freq::Periodic(10));
    assert_eq!(lm.status().pulse(), Some(true));
}

#[test]
fn phase_alternates_on_each_elapsed_period() {
    let mut lm = pulsing_driver(2048, 10);
    let mut expected = true;
    for _ in 0..5 {
        lm.tick();
        assert_eq!(lm.update_pulse(), Ok(()));
        expected = !expected;
        assert_eq!(lm.pulse_state(), Some(expected));
    }
}

#[test]
fn pulse_write_counts_stay_balanced() {
    let mut lm = pulsing_driver(2048, 10);
    let start = lm.dac().write_count() - 1;
    for n in 0..6 {
        let mut on = 0i32;
        let mut off = 0i32;
        for i in start..lm.dac().write_count() {
            match lm.dac().write_at(i) {
                (2048, 0) => on += 1,
                (0, 0) => off += 1,
                other => panic!("unexpected write {:?}", other),
            }
        }
        assert!((on - off).abs() <= 1, "unbalanced after {} periods", n);
        lm.tick();
        assert_eq!(lm.update_pulse(), Ok(()));
    }
}

#[test]
fn frequency_zero_means_continuous() {
    let mut lm = pulsing_driver(2048, 10);
    assert_eq!(lm.set_power_pulse(2048, Some(Freq::Periodic(0))), Ok(()));
    assert_eq!(lm.pulse_state(), None);
    assert_eq!(lm.status().freq(), Freq::Continuous);
}

#[test]
fn continuous_spec_means_continuous() {
    let mut lm = pulsing_driver(2048, 10);
    assert_eq!(lm.set_power_pulse(2048, Some(Freq::Continuous)), Ok(()));
    assert_eq!(lm.pulse_state(), None);
    assert_eq!(lm.status().freq(), Freq::Continuous);
}

#[test]
fn zero_power_arms_no_pulse() {
    let mut lm = pulsing_driver(2048, 10);
    assert_eq!(lm.set_power_pulse(0, Some(Freq::Periodic(5))), Ok(()));
    assert_eq!(lm.pulse_state(), None);
    assert_eq!(lm.status().freq(), Freq::Continuous);
}

#[test]
fn update_without_elapsed_period_changes_nothing() {
    let mut lm = pulsing_driver(2048, 10);
    let before = lm.dac().write_count();
    assert_eq!(lm.update_pulse(), Ok(()));
    assert_eq!(lm.pulse_state(), Some(true));
    assert_eq!(lm.dac().write_count(), before);
}

#[test]
fn update_while_continuous_changes_nothing() {
    let mut lm = pulsing_driver(2048, 10);
    assert_eq!(lm.set_power_pulse(2048, None), Ok(()));
    lm.tick();
    let before = lm.dac().write_count();
    assert_eq!(lm.update_pulse(), Ok(()));
    assert_eq!(lm.dac().write_count(), before);
}

#[test]
fn disable_mid_pulse_clears_phase_and_stops_updates() {
    let mut lm = pulsing_driver(2048, 10);
    lm.tick();
    assert_eq!(lm.update_pulse(), Ok(()));
    assert_eq!(lm.pulse_state(), Some(false));
    lm.set_enabled(false);
    assert_eq!(lm.pulse_state(), None);
    // The next updates are no-ops until re-enabled and re-armed.
    lm.tick();
    let before = lm.dac().write_count();
    assert_eq!(lm.update_pulse(), Ok(()));
    assert_eq!(lm.pulse_state(), None);
    assert_eq!(lm.dac().write_count(), before);
    lm.set_enabled(true);
    assert_eq!(lm.update_pulse(), Ok(()));
    assert_eq!(lm.pulse_state(), None);
    assert_eq!(lm.dac().write_count(), before);
}

#[test]
fn failed_flip_keeps_phase_for_retry() {
    let mut lm = pulsing_driver(2048, 10);
    lm.set_transport_online(false);
    lm.tick();
    assert_eq!(lm.update_pulse(), Err(TransportError));
    assert_eq!(lm.pulse_state(), Some(true));
    lm.set_transport_online(true);
    lm.tick();
    assert_eq!(lm.update_pulse(), Ok(()));
    assert_eq!(lm.pulse_state(), Some(false));
}

#[test]
fn full_scenario() {
    let mut lm = Lm::new(
        DacTransport::new(),
        PulseTimer::new(),
        OutPin::new(false),
        OutPin::new(false),
    );
    let st = lm.status();
    assert_eq!(st.state(), output_driver::status::State::Off);
    assert_eq!(st.pwm(), 0);
    assert_eq!(st.pulse(), None);

    lm.set_enabled(true);
    assert_eq!(lm.set_power_pulse(2048, None), Ok(()));
    assert_eq!(lm.status().pwm(), 2048);

    assert_eq!(lm.set_power_pulse(2048, Some(Freq::Periodic(10))), Ok(()));
    assert_eq!(lm.pulse_state(), Some(true));
    let mut phases = Vec::new();
    for _ in 0..3 {
        lm.tick();
        assert_eq!(lm.update_pulse(), Ok(()));
        phases.push(lm.pulse_state().unwrap());
    }
    assert_eq!(phases, vec![false, true, false]);

    lm.set_enabled(false);
    assert_eq!(lm.status().pwm(), 0);
    assert_eq!(lm.pulse_state(), None);
}
