//! Failures that tuner operations report.

use vstd::prelude::*;

verus! {

/// Why a tuner operation did not complete.
#[derive(Clone, Copy, Debug, PartialEq, Eq, Structural)]
pub enum TunerError {
    /// The local-oscillator target, or the divider ratio it needs, is outside
    /// what the synthesizer can represent.
    FrequencyOutOfRange,
    /// The synthesizer was programmed but did not report lock, even after the
    /// retry with raised VCO current.
    PllLockFailure,
    /// A register address lies outside the shadowed address window.
    OutOfRange,
    /// A shadowed register was read before anything was written to it.
    Uninitialized,
    /// The requested mode is not available.
    NotImplemented,
}

} // verus!
