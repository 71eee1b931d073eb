//! The protocol core of a driver for a successive-approximation
//! analog-to-digital converter.
//!
//! The converter is driven through a handful of memory-mapped registers and
//! one interrupt. This crate holds every decision of that protocol and none
//! of its side effects: the driver is a state machine that names the next
//! thing to do to the hardware (an [`Action`]) and is told what came back.
//! Whoever owns the registers performs the actions.
//!
//! * [`regs`]: the registers and the fields the protocol uses.
//! * [`config`]: sample time and resolution.
//! * [`channel`]: channel numbers and the tokens of the internal sources.
//! * [`action`]: what the driver asks its environment to do.
//! * [`adc`]: the driver itself.
//! * [`interrupt`]: the handler of the completion interrupt.
//! * [`model`]: the converter as the driver sees it, and the invariant of
//!   the driver running against it.
//! * [`laws`]: what follows for every run of the driver.

pub mod action;
pub mod adc;
pub mod channel;
pub mod config;
pub mod interrupt;
pub mod laws;
pub mod model;
pub mod regs;
mod seal;

pub use action::{Action, Rmw};
pub use adc::{Adc, Phase, VDDA_CALIB_MV, VREF_INT};
pub use channel::{InternalChannel, Temperature, Vbat, Vref};
pub use config::{Resolution, SampleTime};
pub use interrupt::InterruptHandler;
pub use regs::Reg;
