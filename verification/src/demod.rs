//! What the tuner asks of the demodulator that sits behind it.

use vstd::prelude::*;

verus! {

/// Intermediate frequency that the demodulator is set to at start-up, in Hz.
pub const R82XX_IF_FREQ: u32 = 3_570_000;

/// One request to the demodulator.
#[derive(Clone, Copy, Debug, PartialEq, Eq, Structural)]
pub enum DemodOp {
    /// Write `len` bytes of `val` to register `addr` of page `page`.
    WriteReg { page: u8, addr: u16, val: u16, len: u8 },
    /// Set the centre of the IF signal, in Hz.
    SetIfFreq(u32),
}

/// The requests that prepare the demodulator for this tuner: zero-IF mode
/// off, in-phase ADC input only, the IF centre, and spectrum inversion on.
pub open spec fn spec_init_sequence() -> Seq<DemodOp> {
    seq![
        DemodOp::WriteReg { page: 1, addr: 0xb1, val: 0x1a, len: 1 },
        DemodOp::WriteReg { page: 0, addr: 0x08, val: 0x4d, len: 1 },
        DemodOp::SetIfFreq(R82XX_IF_FREQ),
        DemodOp::WriteReg { page: 1, addr: 0x15, val: 0x01, len: 1 },
    ]
}

/// Lists the requests that prepare the demodulator for this tuner.
pub fn init_sequence() -> (ops: Vec<DemodOp>)
    ensures
        ops@ == spec_init_sequence(),
{
    vec![
        DemodOp::WriteReg { page: 1, addr: 0xb1, val: 0x1a, len: 1 },
        DemodOp::WriteReg { page: 0, addr: 0x08, val: 0x4d, len: 1 },
        DemodOp::SetIfFreq(R82XX_IF_FREQ),
        DemodOp::WriteReg { page: 1, addr: 0x15, val: 0x01, len: 1 },
    ]
}

} // verus!
