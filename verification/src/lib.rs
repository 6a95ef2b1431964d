//! Driver core for a latched current-output stage.
//!
//! The heart of the crate is [`lm::Lm`], the output-driver state machine: it
//! owns a shutdown line, a latch line and a two-channel DAC register
//! transport, and decides on every control-loop iteration what value the DAC
//! holds, whether the output stage may conduct, and which half of a software
//! square wave is live.  The hardware resources are modelled as owned
//! plain-value handles in [`ports`], so that every decision the driver makes
//! is verified; [`protocol`] gives the latch-protected commit protocol its
//! mathematical model.

pub mod input;
pub mod lm;
pub mod ports;
pub mod protocol;
pub mod status;
