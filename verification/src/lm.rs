//! The output-driver state machine.
//!
//! [`Lm`] owns the shutdown line, the latch line, the DAC register transport
//! and the pulse countdown for one output stage.  It decides what value the
//! DAC holds, whether the output stage may conduct, and which half of a
//! software square wave is live.  Every hardware effect it issues is kept in
//! a ghost trace of [`HwEvent`]s, and each operation's contract states the
//! exact events it appends — so ordering (zero is committed before shutdown
//! is asserted) and accounting (the on and off halves of a pulse stay
//! balanced) are proved, not just asserted.

use vstd::prelude::*;

use crate::ports::{DacTransport, OutPin, PulseTimer, TransportError};
use crate::protocol::{
    channel_pair, commit_events, count_writes, failed_commit_events, lemma_count_writes_add,
    lemma_count_writes_commit, lemma_count_writes_failed, lemma_count_writes_skip_push,
    lemma_replay_append_commit, lemma_replay_append_failed, lemma_replay_push, lemma_skip_append,
    lemma_writes_of_append_commit, lemma_writes_of_append_failed, lemma_writes_of_push, replay,
    spec_channel_pair, writes_of, HwEvent,
};
use crate::status::{Freq, State, Status};

verus! {

/// The largest value the 12-bit converter can hold; every requested setpoint
/// saturates to it.
pub const POWER_MAX: u16 = 4095;

/// A requested setpoint after saturating truncation to the DAC's range.
pub open spec fn clamp_power(power: u16) -> u16 {
    if power > POWER_MAX {
        POWER_MAX
    } else {
        power
    }
}

/// The periodic frequency a pulse request asks for, if any: an absent
/// specification and a frequency of zero both mean continuous output.
pub open spec fn requested_freq(pulse: Option<Freq>) -> Option<u32> {
    match pulse {
        Some(Freq::Periodic(f)) => if f > 0 {
            Some(f)
        } else {
            None
        },
        _ => None,
    }
}

/// The output driver: the one owner of its shutdown pin, latch pin, DAC
/// transport and pulse countdown.
pub struct Lm {
    dac: DacTransport,
    pulse_timer: PulseTimer,
    shutdown_pin: OutPin,
    latch_pin: OutPin,
    enabled: bool,
    power: u16,
    pulse: Option<u32>,
    pulse_state: bool,
    events: Ghost<Seq<HwEvent>>,
    pulse_start: Ghost<int>,
}

impl Lm {
    /// Every hardware effect issued since construction, in order.
    pub closed spec fn trace(self) -> Seq<HwEvent> {
        self.events@
    }

    /// Whether the shutdown line permits the output stage to conduct.
    pub closed spec fn is_enabled(self) -> bool {
        self.enabled
    }

    /// The cached setpoint last committed by an explicit request.
    pub closed spec fn setpoint(self) -> u16 {
        self.power
    }

    /// The armed pulse frequency, if the driver is in the periodic state.
    pub closed spec fn pulse_freq(self) -> Option<u32> {
        self.pulse
    }

    /// Whether the current half of the pulse cycle is the "on" half.
    pub closed spec fn phase(self) -> bool {
        self.pulse_state
    }

    /// The transport's write history.
    pub closed spec fn dac_log(self) -> Seq<(u16, u16)> {
        self.dac.writes()
    }

    /// Whether the bus currently accepts writes.
    pub closed spec fn dac_online(self) -> bool {
        self.dac.online()
    }

    /// The pulse countdown as the driver sees it.
    pub closed spec fn timer(self) -> PulseTimer {
        self.pulse_timer
    }

    /// The level of the shutdown line: high permits conduction (the line is
    /// active low; the polarity is fixed here, in one place).
    pub closed spec fn shutdown_permits(self) -> bool {
        self.shutdown_pin.is_high()
    }

    /// Whether the latch line currently holds the sample-and-hold stage open.
    pub closed spec fn latch_open(self) -> bool {
        self.latch_pin.is_high()
    }

    /// The index into the trace where the running pulse began.
    pub closed spec fn pulse_mark(self) -> int {
        self.pulse_start@
    }

    /// The driver's invariant: what construction establishes and every
    /// operation preserves.
    pub open spec fn wf(self) -> bool {
        &&& self.setpoint() <= POWER_MAX
        &&& self.setpoint() > 0 ==> self.is_enabled()
        &&& (self.pulse_freq() matches Some(f) ==> f > 0 && self.setpoint() > 0)
        &&& (self.pulse_freq() is None ==> !self.phase())
        &&& self.shutdown_permits() == self.is_enabled()
        &&& !self.latch_open()
        &&& replay(self.trace()).latched
        &&& replay(self.trace()).reg == replay(self.trace()).out
        &&& writes_of(self.trace()) == self.dac_log()
        &&& (self.pulse_freq() matches Some(f) ==> self.timer().armed() == Some(f))
        &&& (self.pulse_freq() is Some ==> {
            &&& 0 <= self.pulse_mark() <= self.trace().len()
            &&& count_writes(
                self.trace().skip(self.pulse_mark()),
                spec_channel_pair(self.setpoint()),
            ) == count_writes(self.trace().skip(self.pulse_mark()), spec_channel_pair(0))
                + (if self.phase() {
                    1nat
                } else {
                    0nat
                })
        })
    }

    /// The value the output stage is meant to present right now: zero while
    /// disabled or in the "off" half of a pulse, the setpoint otherwise.
    pub open spec fn live_value(self) -> u16 {
        if !self.is_enabled() {
            0
        } else if self.pulse_freq() is Some && !self.phase() {
            0
        } else {
            self.setpoint()
        }
    }

    /// Whether the held DAC output agrees with the driver's intent.  Every
    /// successful commit establishes this; a failed bus write may leave the
    /// DAC one step behind (it then holds the last known-good value).
    pub open spec fn dac_in_sync(self) -> bool {
        replay(self.trace()).out == spec_channel_pair(self.live_value())
    }

    /// What the output stage presents: the zero pair whenever the shutdown
    /// line is asserted, the held DAC value otherwise.
    pub open spec fn output_value(self) -> (u16, u16) {
        if !self.is_enabled() {
            (0u16, 0u16)
        } else {
            replay(self.trace()).out
        }
    }

    /// Closes the sample-and-hold stage, freezing the analog output.
    fn latch(&mut self)
        ensures
            final(self).events@ == old(self).events@.push(HwEvent::Latch),
            !final(self).latch_pin.is_high(),
            final(self).dac == old(self).dac,
            final(self).pulse_timer == old(self).pulse_timer,
            final(self).shutdown_pin == old(self).shutdown_pin,
            final(self).enabled == old(self).enabled,
            final(self).power == old(self).power,
            final(self).pulse == old(self).pulse,
            final(self).pulse_state == old(self).pulse_state,
            final(self).pulse_start == old(self).pulse_start,
    {
        self.latch_pin.set_low();
        self.events = Ghost(self.events@.push(HwEvent::Latch));
    }

    /// Opens the sample-and-hold stage: the output tracks the registers.
    fn unlatch(&mut self)
        ensures
            final(self).events@ == old(self).events@.push(HwEvent::Unlatch),
            final(self).latch_pin.is_high(),
            final(self).dac == old(self).dac,
            final(self).pulse_timer == old(self).pulse_timer,
            final(self).shutdown_pin == old(self).shutdown_pin,
            final(self).enabled == old(self).enabled,
            final(self).power == old(self).power,
            final(self).pulse == old(self).pulse,
            final(self).pulse_state == old(self).pulse_state,
            final(self).pulse_start == old(self).pulse_start,
    {
        self.latch_pin.set_high();
        self.events = Ghost(self.events@.push(HwEvent::Unlatch));
    }

    /// The latch-protected commit: unlatch, write both channel registers,
    /// latch again — also on the failure path, so the output never floats.
    fn set_dac(&mut self, value: u16) -> (r: Result<(), TransportError>)
        requires
            value <= POWER_MAX,
        ensures
            final(self).dac.online() == old(self).dac.online(),
            !final(self).latch_pin.is_high(),
            final(self).pulse_timer == old(self).pulse_timer,
            final(self).shutdown_pin == old(self).shutdown_pin,
            final(self).enabled == old(self).enabled,
            final(self).power == old(self).power,
            final(self).pulse == old(self).pulse,
            final(self).pulse_state == old(self).pulse_state,
            final(self).pulse_start == old(self).pulse_start,
            old(self).dac.online() ==> r is Ok,
            !old(self).dac.online() ==> r is Err,
            r is Ok ==> final(self).events@ == old(self).events@ + commit_events(value)
                && final(self).dac.writes() == old(self).dac.writes().push(
                spec_channel_pair(value),
            ),
            r is Err ==> final(self).events@ == old(self).events@ + failed_commit_events()
                && final(self).dac.writes() == old(self).dac.writes(),
    {
        self.unlatch();
        let pair = channel_pair(value);
        let r = self.dac.write_channels(pair.0, pair.1);
        if r.is_ok() {
            self.events = Ghost(self.events@.push(HwEvent::Write(pair.0, pair.1)));
        }
        self.latch();
        proof {
            let t = old(self).events@;
            if r is Ok {
                assert(self.events@ =~= t + commit_events(value));
            } else {
                assert(self.events@ =~= t + failed_commit_events());
            }
        }
        r
    }

    /// The disable path: commit zero through the latch protocol, then close
    /// the conduction path, then drop the cached setpoint and pulse.  Zero is
    /// committed *before* shutdown is asserted, so a stale value is never
    /// left armed across the transition.
    fn shut_down(&mut self)
        requires
            writes_of(old(self).events@) == old(self).dac.writes(),
        ensures
            final(self).wf(),
            !final(self).is_enabled(),
            final(self).setpoint() == 0,
            final(self).pulse_freq() is None,
            !final(self).phase(),
            final(self).dac_online() == old(self).dac_online(),
            final(self).timer() == old(self).pulse_timer,
            old(self).dac.online() ==> final(self).trace() == old(self).events@
                + commit_events(0) + seq![HwEvent::ShutdownAssert] && final(self).dac_log()
                == old(self).dac.writes().push(spec_channel_pair(0)) && final(self).dac_in_sync(),
            !old(self).dac.online() ==> final(self).trace() == old(self).events@
                + failed_commit_events() + seq![HwEvent::ShutdownAssert] && final(self).dac_log()
                == old(self).dac.writes(),
            !old(self).dac.online() && replay(old(self).events@).reg == spec_channel_pair(0)
                ==> final(self).dac_in_sync(),
    {
        let r = self.set_dac(0);
        self.shutdown_pin.set_low();
        self.events = Ghost(self.events@.push(HwEvent::ShutdownAssert));
        self.power = 0;
        self.pulse = None;
        self.pulse_state = false;
        self.enabled = false;
        proof {
            let t0 = old(self).events@;
            if r is Ok {
                let t1 = t0 + commit_events(0);
                assert(self.events@ =~= t1 + seq![HwEvent::ShutdownAssert]);
                lemma_replay_append_commit(t0, 0);
                lemma_writes_of_append_commit(t0, 0);
                lemma_replay_push(t1, HwEvent::ShutdownAssert);
                lemma_writes_of_push(t1, HwEvent::ShutdownAssert);
            } else {
                let t1 = t0 + failed_commit_events();
                assert(self.events@ =~= t1 + seq![HwEvent::ShutdownAssert]);
                lemma_replay_append_failed(t0);
                lemma_writes_of_append_failed(t0);
                lemma_replay_push(t1, HwEvent::ShutdownAssert);
                lemma_writes_of_push(t1, HwEvent::ShutdownAssert);
            }
            assert(spec_channel_pair(0) == (0u16, 0u16));
        }
    }

    /// Builds the driver around its hardware resources and immediately
    /// drives them to the safe state: latched, zero committed, shutdown
    /// asserted.  The driver owns its transport for its whole life, so the
    /// transport's history starts together with the driver's.
    pub fn new(
        dac: DacTransport,
        pulse_timer: PulseTimer,
        shutdown_pin: OutPin,
        latch_pin: OutPin,
    ) -> (lm: Lm)
        requires
            dac.writes().len() == 0,
        ensures
            lm.wf(),
            !lm.is_enabled(),
            lm.setpoint() == 0,
            lm.pulse_freq() is None,
            !lm.phase(),
            lm.dac_online() == dac.online(),
            lm.timer() == pulse_timer,
            lm.dac_in_sync(),
            dac.online() ==> lm.dac_log() == dac.writes().push(spec_channel_pair(0)).push(
                spec_channel_pair(0),
            ),
            !dac.online() ==> lm.dac_log() == dac.writes(),
    {
        let mut lm = Lm {
            dac,
            pulse_timer,
            shutdown_pin,
            latch_pin,
            enabled: false,
            power: 0,
            pulse: None,
            pulse_state: false,
            events: Ghost(Seq::empty()),
            pulse_start: Ghost(0),
        };
        lm.latch();
        let r = lm.set_dac(0);
        proof {
            let t0 = Seq::<HwEvent>::empty().push(HwEvent::Latch);
            lemma_replay_push(Seq::<HwEvent>::empty(), HwEvent::Latch);
            lemma_writes_of_push(Seq::<HwEvent>::empty(), HwEvent::Latch);
            if r is Ok {
                lemma_replay_append_commit(t0, 0);
                lemma_writes_of_append_commit(t0, 0);
            } else {
                lemma_replay_append_failed(t0);
                lemma_writes_of_append_failed(t0);
            }
            assert(spec_channel_pair(0) == (0u16, 0u16));
            assert(dac.writes() =~= Seq::<(u16, u16)>::empty());
            assert(writes_of(lm.events@) =~= lm.dac.writes());
        }
        lm.shut_down();
        lm
    }

    /// Pure read of the cached enable state; no hardware read-back exists.
    pub fn enabled(&self) -> (enabled: bool)
        ensures
            enabled == self.is_enabled(),
    {
        self.enabled
    }

    /// Whether a nonzero setpoint is currently held.
    pub fn powered(&self) -> (powered: bool)
        ensures
            powered == (self.setpoint() != 0),
    {
        if self.power == 0 {
            false
        } else {
            true
        }
    }

    /// The live pulse phase: meaningful only while enabled with a nonzero
    /// setpoint and a periodic specification.
    pub open spec fn pulse_phase(self) -> Option<bool> {
        if self.is_enabled() && self.setpoint() != 0 && self.pulse_freq() is Some {
            Some(self.phase())
        } else {
            None
        }
    }

    /// Opens or closes the conduction path.  Enabling only deasserts the
    /// shutdown line and leaves the setpoint alone; disabling first forces
    /// the setpoint to zero through the latch protocol, clears the pulse,
    /// and only then asserts shutdown, so a stale nonzero value is never
    /// left armed across the transition.
    pub fn set_enabled(&mut self, enable: bool)
        requires
            old(self).wf(),
        ensures
            final(self).wf(),
            final(self).is_enabled() == enable,
            final(self).dac_online() == old(self).dac_online(),
            enable ==> {
                &&& final(self).setpoint() == old(self).setpoint()
                &&& final(self).pulse_freq() == old(self).pulse_freq()
                &&& final(self).phase() == old(self).phase()
                &&& final(self).trace() == old(self).trace().push(HwEvent::ShutdownDeassert)
                &&& final(self).dac_log() == old(self).dac_log()
                &&& final(self).timer() == old(self).timer()
                &&& (old(self).dac_in_sync() ==> final(self).dac_in_sync())
            },
            !enable ==> {
                &&& final(self).setpoint() == 0
                &&& final(self).pulse_freq() is None
                &&& !final(self).phase()
                &&& final(self).timer() == old(self).timer()
                &&& (old(self).dac_online() ==> final(self).trace() == old(self).trace()
                    + commit_events(0) + seq![HwEvent::ShutdownAssert] && final(self).dac_log()
                    == old(self).dac_log().push(spec_channel_pair(0)) && final(self).dac_in_sync())
                &&& (!old(self).dac_online() ==> final(self).trace() == old(self).trace()
                    + failed_commit_events() + seq![HwEvent::ShutdownAssert]
                    && final(self).dac_log() == old(self).dac_log())
            },
    {
        if enable {
            self.shutdown_pin.set_high();
            self.events = Ghost(self.events@.push(HwEvent::ShutdownDeassert));
            self.enabled = true;
            proof {
                let t0 = old(self).events@;
                lemma_replay_push(t0, HwEvent::ShutdownDeassert);
                lemma_writes_of_push(t0, HwEvent::ShutdownDeassert);
                if self.pulse is Some {
                    lemma_count_writes_skip_push(
                        t0,
                        HwEvent::ShutdownDeassert,
                        self.pulse_start@,
                        spec_channel_pair(self.power),
                    );
                    lemma_count_writes_skip_push(
                        t0,
                        HwEvent::ShutdownDeassert,
                        self.pulse_start@,
                        spec_channel_pair(0),
                    );
                }
            }
        } else {
            self.shut_down();
        }
    }

    /// Opens the conduction path; shorthand for enabling.
    pub fn enable(&mut self)
        requires
            old(self).wf(),
        ensures
            final(self).wf(),
            final(self).is_enabled(),
            final(self).setpoint() == old(self).setpoint(),
            final(self).pulse_freq() == old(self).pulse_freq(),
            final(self).phase() == old(self).phase(),
            final(self).trace() == old(self).trace().push(HwEvent::ShutdownDeassert),
            final(self).dac_log() == old(self).dac_log(),
            final(self).dac_online() == old(self).dac_online(),
            final(self).timer() == old(self).timer(),
            old(self).dac_in_sync() ==> final(self).dac_in_sync(),
    {
        self.set_enabled(true);
    }

    /// Requests a setpoint with an optional pulse specification.  While
    /// disabled the request is a silent no-op — the driver never arms output
    /// by accident.  While enabled, the requested power saturates to the
    /// DAC's range and is committed through the latch protocol; a periodic
    /// specification with a nonzero frequency and a nonzero setpoint arms
    /// the countdown and starts the pulse in its "on" half.  If the bus
    /// write fails, the cached state is left unchanged, so retrying is safe.
    pub fn set_power_pulse(&mut self, power: u16, pulse: Option<Freq>) -> (r: Result<
        (),
        TransportError,
    >)
        requires
            old(self).wf(),
        ensures
            final(self).wf(),
            final(self).is_enabled() == old(self).is_enabled(),
            final(self).dac_online() == old(self).dac_online(),
            !old(self).is_enabled() ==> r is Ok && *final(self) == *old(self),
            old(self).is_enabled() ==> {
                let clamped = clamp_power(power);
                let freq = requested_freq(pulse);
                &&& (old(self).dac_online() ==> r is Ok)
                &&& (!old(self).dac_online() ==> r is Err)
                &&& (r is Ok ==> {
                    &&& final(self).setpoint() == clamped
                    &&& final(self).pulse_freq() == (if clamped > 0 {
                        freq
                    } else {
                        Option::<u32>::None
                    })
                    &&& final(self).phase() == (clamped > 0 && freq is Some)
                    &&& final(self).trace() == old(self).trace() + commit_events(clamped)
                    &&& final(self).dac_log() == old(self).dac_log().push(
                        spec_channel_pair(clamped),
                    )
                    &&& final(self).dac_in_sync()
                    &&& (clamped > 0 && freq is Some ==> (final(self).timer().armed() == freq
                        && !final(self).timer().pending()))
                    &&& (!(clamped > 0 && freq is Some) ==> final(self).timer()
                        == old(self).timer())
                })
                &&& (r is Err ==> {
                    &&& final(self).setpoint() == old(self).setpoint()
                    &&& final(self).pulse_freq() == old(self).pulse_freq()
                    &&& final(self).phase() == old(self).phase()
                    &&& final(self).timer() == old(self).timer()
                    &&& final(self).trace() == old(self).trace() + failed_commit_events()
                    &&& final(self).dac_log() == old(self).dac_log()
                    &&& (old(self).dac_in_sync() ==> final(self).dac_in_sync())
                })
            },
    {
        if self.enabled {
            let clamped = if power > POWER_MAX {
                POWER_MAX
            } else {
                power
            };
            let r = self.set_dac(clamped);
            if r.is_err() {
                proof {
                    let t0 = old(self).events@;
                    lemma_replay_append_failed(t0);
                    lemma_writes_of_append_failed(t0);
                    if self.pulse is Some {
                        let mark = self.pulse_start@;
                        lemma_skip_append(t0, failed_commit_events(), mark);
                        lemma_count_writes_add(
                            t0.skip(mark),
                            failed_commit_events(),
                            spec_channel_pair(self.power),
                        );
                        lemma_count_writes_add(
                            t0.skip(mark),
                            failed_commit_events(),
                            spec_channel_pair(0),
                        );
                        lemma_count_writes_failed(spec_channel_pair(self.power));
                        lemma_count_writes_failed(spec_channel_pair(0));
                    }
                }
                return r;
            }
            self.power = clamped;
            self.pulse_state = false;
            if clamped != 0 {
                let freq: Option<u32> = match pulse {
                    Some(Freq::Periodic(f)) => if f > 0 {
                        Some(f)
                    } else {
                        None
                    },
                    _ => None,
                };
                if let Some(f) = freq {
                    self.pulse_timer.arm(f);
                    self.pulse_state = true;
                    self.pulse_start = Ghost(old(self).events@.len() as int);
                }
                self.pulse = freq;
            } else {
                self.pulse = None;
            }
            proof {
                let t0 = old(self).events@;
                lemma_replay_append_commit(t0, clamped);
                lemma_writes_of_append_commit(t0, clamped);
                if self.pulse is Some {
                    let mark = self.pulse_start@;
                    assert(mark == t0.len());
                    assert((t0 + commit_events(clamped)).skip(mark) =~= commit_events(clamped));
                    lemma_count_writes_commit(clamped, spec_channel_pair(clamped));
                    lemma_count_writes_commit(clamped, spec_channel_pair(0));
                }
            }
            Ok(())
        } else {
            Ok(())
        }
    }

    /// Drops the output to zero: shorthand for requesting setpoint zero with
    /// no pulse.  Repeating it is harmless: the cached state ends the same
    /// and the repeated zero commit leaves the held output where it was.
    pub fn power_off(&mut self) -> (r: Result<(), TransportError>)
        requires
            old(self).wf(),
        ensures
            final(self).wf(),
            final(self).is_enabled() == old(self).is_enabled(),
            final(self).dac_online() == old(self).dac_online(),
            !old(self).is_enabled() ==> r is Ok && *final(self) == *old(self),
            old(self).is_enabled() ==> {
                &&& (old(self).dac_online() ==> r is Ok)
                &&& (!old(self).dac_online() ==> r is Err)
                &&& final(self).timer() == old(self).timer()
                &&& (r is Ok ==> {
                    &&& final(self).setpoint() == 0
                    &&& final(self).pulse_freq() is None
                    &&& !final(self).phase()
                    &&& final(self).trace() == old(self).trace() + commit_events(0)
                    &&& final(self).dac_log() == old(self).dac_log().push(spec_channel_pair(0))
                    &&& final(self).dac_in_sync()
                })
                &&& (r is Err ==> {
                    &&& final(self).setpoint() == old(self).setpoint()
                    &&& final(self).pulse_freq() == old(self).pulse_freq()
                    &&& final(self).phase() == old(self).phase()
                    &&& final(self).trace() == old(self).trace() + failed_commit_events()
                    &&& final(self).dac_log() == old(self).dac_log()
                    &&& (old(self).dac_in_sync() ==> final(self).dac_in_sync())
                })
            },
    {
        self.set_power_pulse(0, None)
    }

    /// Which half of the pulse cycle is live, or `None` when no pulse runs.
    pub fn pulse_state(&self) -> (phase: Option<bool>)
        ensures
            phase == self.pulse_phase(),
    {
        if self.enabled {
            if self.power != 0 && self.pulse.is_some() {
                return Some(self.pulse_state);
            }
        }
        None
    }

    /// The cooperative tick; the caller invokes it on every iteration of its
    /// control loop.  Outside the periodic state it is an exact no-op.  In
    /// the periodic state, when the countdown reports an elapsed period, the
    /// committed value flips between zero and the stored setpoint and the
    /// phase flips with it; on a failed bus write the phase is left
    /// unchanged, so a retry continues where the pulse stood.
    pub fn update_pulse(&mut self) -> (r: Result<(), TransportError>)
        requires
            old(self).wf(),
        ensures
            final(self).wf(),
            final(self).is_enabled() == old(self).is_enabled(),
            final(self).setpoint() == old(self).setpoint(),
            final(self).pulse_freq() == old(self).pulse_freq(),
            final(self).dac_online() == old(self).dac_online(),
            old(self).pulse_freq() is None ==> r is Ok && *final(self) == *old(self),
            old(self).pulse_freq() is Some && !old(self).timer().pending() ==> r is Ok
                && *final(self) == *old(self),
            old(self).pulse_freq() is Some && old(self).timer().pending() ==> {
                let value = if old(self).phase() {
                    0u16
                } else {
                    old(self).setpoint()
                };
                &&& (old(self).dac_online() ==> r is Ok)
                &&& (!old(self).dac_online() ==> r is Err)
                &&& final(self).timer().armed() == old(self).timer().armed()
                &&& !final(self).timer().pending()
                &&& (r is Ok ==> {
                    &&& final(self).phase() == !old(self).phase()
                    &&& final(self).trace() == old(self).trace() + commit_events(value)
                    &&& final(self).dac_log() == old(self).dac_log().push(
                        spec_channel_pair(value),
                    )
                    &&& final(self).dac_in_sync()
                })
                &&& (r is Err ==> {
                    &&& final(self).phase() == old(self).phase()
                    &&& final(self).trace() == old(self).trace() + failed_commit_events()
                    &&& final(self).dac_log() == old(self).dac_log()
                    &&& (old(self).dac_in_sync() ==> final(self).dac_in_sync())
                })
            },
    {
        let active = self.enabled && self.power != 0 && self.pulse.is_some();
        if active {
            if self.pulse_timer.poll_elapsed() {
                let prev = self.pulse_state;
                let value = if prev {
                    0
                } else {
                    self.power
                };
                let r = self.set_dac(value);
                if r.is_ok() {
                    self.pulse_state = !prev;
                }
                proof {
                    let t0 = old(self).events@;
                    let mark = self.pulse_start@;
                    if r is Ok {
                        lemma_replay_append_commit(t0, value);
                        lemma_writes_of_append_commit(t0, value);
                        lemma_skip_append(t0, commit_events(value), mark);
                        lemma_count_writes_add(
                            t0.skip(mark),
                            commit_events(value),
                            spec_channel_pair(self.power),
                        );
                        lemma_count_writes_add(
                            t0.skip(mark),
                            commit_events(value),
                            spec_channel_pair(0),
                        );
                        lemma_count_writes_commit(value, spec_channel_pair(self.power));
                        lemma_count_writes_commit(value, spec_channel_pair(0));
                    } else {
                        lemma_replay_append_failed(t0);
                        lemma_writes_of_append_failed(t0);
                        lemma_skip_append(t0, failed_commit_events(), mark);
                        lemma_count_writes_add(
                            t0.skip(mark),
                            failed_commit_events(),
                            spec_channel_pair(self.power),
                        );
                        lemma_count_writes_add(
                            t0.skip(mark),
                            failed_commit_events(),
                            spec_channel_pair(0),
                        );
                        lemma_count_writes_failed(spec_channel_pair(self.power));
                        lemma_count_writes_failed(spec_channel_pair(0));
                    }
                }
                return r;
            }
        }
        Ok(())
    }

    /// The pulse specification as the status snapshot reports it.
    pub open spec fn pulse_setting(self) -> Freq {
        match self.pulse_freq() {
            Some(f) => Freq::Periodic(f),
            None => Freq::Continuous,
        }
    }

    /// A read-only snapshot for the status sink: the enable-derived tag, the
    /// cached setpoint, both control-line views, the pulse specification and the
    /// live phase.  Produced on demand, never stored.
    pub fn status(&self) -> (status: Status)
        ensures
            status.state == (if self.is_enabled() {
                State::On
            } else {
                State::Off
            }),
            status.pwm == self.setpoint(),
            status.pwm_oe == self.is_enabled(),
            status.pwm_relay == self.is_enabled(),
            status.freq == self.pulse_setting(),
            status.pulse == self.pulse_phase(),
    {
        let state = if self.enabled {
            State::On
        } else {
            State::Off
        };
        let freq = match self.pulse {
            Some(f) => Freq::Periodic(f),
            None => Freq::Continuous,
        };
        Status {
            state,
            pwm: self.power,
            pwm_oe: self.enabled,
            pwm_relay: self.enabled,
            freq,
            pulse: self.pulse_state(),
        }
    }

    /// The outside world reporting that a pulse period boundary passed; the
    /// countdown remembers it until the next `update_pulse` polls it.
    pub fn tick(&mut self)
        requires
            old(self).wf(),
        ensures
            final(self).wf(),
            final(self).is_enabled() == old(self).is_enabled(),
            final(self).setpoint() == old(self).setpoint(),
            final(self).pulse_freq() == old(self).pulse_freq(),
            final(self).phase() == old(self).phase(),
            final(self).trace() == old(self).trace(),
            final(self).dac_log() == old(self).dac_log(),
            final(self).dac_online() == old(self).dac_online(),
            final(self).timer().armed() == old(self).timer().armed(),
            final(self).timer().pending() == (old(self).timer().pending()
                || old(self).timer().armed() is Some),
            final(self).dac_in_sync() == old(self).dac_in_sync(),
    {
        self.pulse_timer.tick();
    }

    /// Models the bus failing or recovering: while offline, every commit
    /// reports `TransportError` and the DAC holds its last known-good value.
    pub fn set_transport_online(&mut self, online: bool)
        requires
            old(self).wf(),
        ensures
            final(self).wf(),
            final(self).dac_online() == online,
            final(self).is_enabled() == old(self).is_enabled(),
            final(self).setpoint() == old(self).setpoint(),
            final(self).pulse_freq() == old(self).pulse_freq(),
            final(self).phase() == old(self).phase(),
            final(self).trace() == old(self).trace(),
            final(self).dac_log() == old(self).dac_log(),
            final(self).timer() == old(self).timer(),
            final(self).dac_in_sync() == old(self).dac_in_sync(),
    {
        self.dac.set_online(online);
    }

    /// Read access to the transport, for inspecting the committed writes.
    pub fn dac(&self) -> (dac: &DacTransport)
        ensures
            dac.writes() == self.dac_log(),
            dac.online() == self.dac_online(),
    {
        &self.dac
    }
}

/// Disabling always commits the zero pair before the shutdown line is asserted.
/// In the trace that `set_enabled(false)` ensures while the bus is online,
/// the zero write stands strictly before the shutdown assertion, and it is
/// the one write the transition adds — so a stale nonzero value is never
/// left armed across the transition.
pub proof fn lemma_disable_zeroes_before_shutdown(pre: Seq<HwEvent>, post: Seq<HwEvent>)
    requires
        post == pre + commit_events(0) + seq![HwEvent::ShutdownAssert],
    ensures
        post.len() == pre.len() + 4,
        post.last() == HwEvent::ShutdownAssert,
        post[post.len() - 3] == HwEvent::Write(0u16, 0u16),
        writes_of(post) == writes_of(pre).push((0u16, 0u16)),
{
    assert(spec_channel_pair(0) == (0u16, 0u16));
    lemma_writes_of_append_commit(pre, 0);
    let t1 = pre + commit_events(0);
    assert(post =~= t1.push(HwEvent::ShutdownAssert));
    lemma_writes_of_push(t1, HwEvent::ShutdownAssert);
    assert(post[post.len() - 3] == commit_events(0)[1]);
}

/// Powering off is idempotent at the output: once the DAC already holds the
/// zero pair, the repeated zero commit that a second `power_off` issues
/// appends one more write to the log but leaves the held output exactly
/// where the first call left it.
pub proof fn lemma_power_off_idempotent(once: Seq<HwEvent>, twice: Seq<HwEvent>)
    requires
        replay(once).out == spec_channel_pair(0),
        twice == once + commit_events(0),
    ensures
        replay(twice).out == replay(once).out,
        replay(twice).latched,
        writes_of(twice) == writes_of(once).push(spec_channel_pair(0)),
{
    lemma_replay_append_commit(once, 0);
    lemma_writes_of_append_commit(once, 0);
}

/// Pulse symmetry: while a pulse runs, the commits since it began keep the
/// on and off halves balanced — the "on" count exceeds the "off" count by
/// exactly one while the live half is "on" and equals it otherwise, so the
/// two counts never differ by more than one.
pub proof fn lemma_pulse_write_balance(lm: Lm)
    requires
        lm.wf(),
        lm.pulse_freq() is Some,
    ensures
        count_writes(lm.trace().skip(lm.pulse_mark()), spec_channel_pair(lm.setpoint()))
            == count_writes(lm.trace().skip(lm.pulse_mark()), spec_channel_pair(0)) + (if lm.phase() {
            1nat
        } else {
            0nat
        }),
{
}

/// While the driver is disabled no pulse phase is ever reported, whatever
/// ran before the disable.
pub proof fn lemma_disabled_clears_phase(lm: Lm)
    requires
        !lm.is_enabled(),
    ensures
        lm.pulse_phase() is None,
{
}

/// The output stage presents exactly the pair for the intended live value —
/// the setpoint in the "on" half of a pulse, zero in its "off" half, zero
/// whenever disabled — whenever the DAC is in step with the driver (which
/// every successful commit establishes).
pub proof fn lemma_output_tracks_intent(lm: Lm)
    requires
        lm.wf(),
        lm.dac_in_sync(),
    ensures
        lm.output_value() == spec_channel_pair(lm.live_value()),
{
    if !lm.is_enabled() {
        assert(spec_channel_pair(0) == (0u16, 0u16));
    }
}

} // verus!
