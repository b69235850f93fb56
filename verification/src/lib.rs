//! Control logic for the Rafael Micro R820T tuner.
//!
//! The crate turns a requested centre frequency, channel bandwidth and gain
//! mode into the register writes that the tuner needs, and evaluates what the
//! tuner reports back. It performs no I/O: operations append the bus frames
//! to send to a vector of the caller, and take the bytes that the caller read
//! from the chip.
//!
//! - [`ranges`]: the table of RF bands and the rule that picks one.
//! - [`shadow`]: the model of the host-side register mirror and of the bus
//!   frames that writes produce.
//! - [`mux`]: the register writes that route the RF front end.
//! - [`filter`]: the choice of IF filters and intermediate frequency.
//! - [`pll`]: divider search, divider ratio, modulator word and lock
//!   handling of the synthesizer.
//! - [`gain`], [`demod`], [`info`], [`error`], [`bits`]: gain modes, requests
//!   to the demodulator, the tuner's descriptor, failures, bit reversal.
//! - [`tuner`]: the tuner itself, which owns the mirror and the tuning state.

pub mod bits;
pub mod demod;
pub mod error;
pub mod filter;
pub mod gain;
pub mod info;
pub mod mux;
pub mod pll;
pub mod ranges;
pub mod shadow;
pub mod tuner;
