//! The read-only snapshot of the driver's state that the status sink
//! (display, logging) consumes.  Produced on demand, never stored.

use vstd::prelude::*;

verus! {

/// The coarse condition of the output stage, derived from the enable state.
#[derive(Clone, Copy, Debug, PartialEq, Eq, PartialOrd, Ord, Hash, Structural)]
pub enum State {
    Error,
    Off,
    On,
}

/// The pulse specification: the setpoint is either held static or chopped
/// into a software square wave at the given frequency in hertz.
#[derive(Clone, Copy, Debug, PartialEq, Eq, Structural)]
pub enum Freq {
    Continuous,
    Periodic(u32),
}

/// A snapshot of the driver: the enable-derived condition tag, the committed
/// setpoint, the two control lines, the pulse specification, and the live pulse
/// phase where one is running.
#[derive(Clone, Copy, Debug)]
pub struct Status {
    pub state: State,
    pub pwm: u16,
    pub pwm_oe: bool,
    pub pwm_relay: bool,
    pub freq: Freq,
    pub pulse: Option<bool>,
}

impl Status {
    pub fn state(&self) -> (state: State)
        ensures
            state == self.state,
    {
        self.state
    }

    pub fn pwm(&self) -> (pwm: u16)
        ensures
            pwm == self.pwm,
    {
        self.pwm
    }

    pub fn pwm_oe(&self) -> (oe: bool)
        ensures
            oe == self.pwm_oe,
    {
        self.pwm_oe
    }

    pub fn pwm_relay(&self) -> (relay: bool)
        ensures
            relay == self.pwm_relay,
    {
        self.pwm_relay
    }

    pub fn freq(&self) -> (freq: Freq)
        ensures
            freq == self.freq,
    {
        self.freq
    }

    pub fn pulse(&self) -> (pulse: Option<bool>)
        ensures
            pulse == self.pulse,
    {
        self.pulse
    }
}

} // verus!
