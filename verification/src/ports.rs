//! The driver's hardware resources as owned, plain-value handles: a digital
//! output line, the DAC register-write transport, and the periodic countdown
//! timer behind the pulse generator.  Each handle records exactly the state a
//! contract needs to speak about, so a test double and the verified driver
//! see the same model.

use vstd::prelude::*;

verus! {

/// A digital output line, modelled by the level it is driven to.
pub struct OutPin {
    high: bool,
}

impl OutPin {
    /// The level the line is currently driven to.
    pub closed spec fn is_high(self) -> bool {
        self.high
    }

    pub fn new(high: bool) -> (pin: Self)
        ensures
            pin.is_high() == high,
    {
        OutPin { high }
    }

    pub fn set_high(&mut self)
        ensures
            final(self).is_high(),
    {
        self.high = true;
    }

    pub fn set_low(&mut self)
        ensures
            !final(self).is_high(),
    {
        self.high = false;
    }

    pub fn level(&self) -> (high: bool)
        ensures
            high == self.is_high(),
    {
        self.high
    }
}

/// The register write over the bus failed (acknowledge timeout, arbitration
/// loss); the commit that issued it reports the failure to its caller.
#[derive(Clone, Copy, Debug, PartialEq, Eq, Structural)]
pub struct TransportError;

/// The register-write transport of the two-channel DAC.  It keeps the
/// committed pairs in call order, and an `online` switch models the health of
/// the bus: while offline every write fails, as a real bus transaction may.
pub struct DacTransport {
    writes: Vec<(u16, u16)>,
    online: bool,
}

impl DacTransport {
    /// Every pair written so far, in call order.
    pub closed spec fn writes(self) -> Seq<(u16, u16)> {
        self.writes@
    }

    /// Whether the bus currently accepts writes.
    pub closed spec fn online(self) -> bool {
        self.online
    }

    /// A fresh transport with an empty write history.
    pub fn new() -> (t: Self)
        ensures
            t.writes() == Seq::<(u16, u16)>::empty(),
            t.online(),
    {
        DacTransport { writes: Vec::new(), online: true }
    }

    /// Models the bus failing or recovering.
    pub fn set_online(&mut self, online: bool)
        ensures
            final(self).online() == online,
            final(self).writes() == old(self).writes(),
    {
        self.online = online;
    }

    /// One bus transaction committing both channel registers.
    pub fn write_channels(&mut self, value_a: u16, value_b: u16) -> (r: Result<(), TransportError>)
        requires
            value_a <= 4095,
            value_b <= 4095,
        ensures
            final(self).online() == old(self).online(),
            old(self).online() ==> r is Ok
                && final(self).writes() == old(self).writes().push((value_a, value_b)),
            !old(self).online() ==> r is Err
                && final(self).writes() == old(self).writes(),
    {
        if self.online {
            self.writes.push((value_a, value_b));
            Ok(())
        } else {
            Err(TransportError)
        }
    }

    /// How many writes the transport has carried.
    pub fn write_count(&self) -> (n: usize)
        ensures
            n == self.writes().len(),
    {
        self.writes.len()
    }

    /// The `i`-th write, in call order.
    pub fn write_at(&self, i: usize) -> (w: (u16, u16))
        requires
            i < self.writes().len(),
        ensures
            w == self.writes()[i as int],
    {
        self.writes[i]
    }
}

/// The periodic countdown behind the pulse generator.  Arming it at a
/// frequency starts a fresh period; `tick` is the outside world reporting
/// that a period boundary passed; `poll_elapsed` is the non-blocking check,
/// true at most once per elapsed period.
pub struct PulseTimer {
    freq: Option<u32>,
    elapsed: bool,
}

impl PulseTimer {
    /// The frequency the countdown was last armed at, if any.
    pub closed spec fn armed(self) -> Option<u32> {
        self.freq
    }

    /// Whether a period boundary has passed since the last poll.
    pub closed spec fn pending(self) -> bool {
        self.elapsed
    }

    /// A fresh, unarmed countdown.
    pub fn new() -> (t: Self)
        ensures
            t.armed() is None,
            !t.pending(),
    {
        PulseTimer { freq: None, elapsed: false }
    }

    /// (Re)arms the countdown at `freq`, starting a fresh period.
    pub fn arm(&mut self, freq: u32)
        requires
            freq > 0,
        ensures
            final(self).armed() == Some(freq),
            !final(self).pending(),
    {
        self.freq = Some(freq);
        self.elapsed = false;
    }

    /// A period boundary passed.  Only an armed countdown reports it.
    pub fn tick(&mut self)
        ensures
            final(self).armed() == old(self).armed(),
            final(self).pending() == (old(self).pending() || old(self).armed() is Some),
            old(self).armed() is None ==> *final(self) == *old(self),
    {
        if self.freq.is_some() {
            self.elapsed = true;
        }
    }

    /// Non-blocking poll: reports and consumes an elapsed period.
    pub fn poll_elapsed(&mut self) -> (elapsed: bool)
        ensures
            final(self).armed() == old(self).armed(),
            elapsed == old(self).pending(),
            !final(self).pending(),
            !old(self).pending() ==> *final(self) == *old(self),
    {
        let elapsed = self.elapsed;
        self.elapsed = false;
        elapsed
    }
}

} // verus!
