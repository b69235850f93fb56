//! How the surrounding driver recognises the tuner on the bus.

use vstd::prelude::*;

verus! {

/// Identifier of this tuner.
pub const TUNER_ID: &'static str = "r820t";

/// Bus address of the tuner.
pub const R820T_I2C_ADDR: u16 = 0x34;

/// What a driver needs to find and name a tuner.
#[derive(Clone, Copy, Debug, PartialEq, Eq)]
pub struct TunerInfo {
    /// Short identifier.
    pub id: &'static str,
    /// Name for display.
    pub name: &'static str,
    /// Address of the tuner on the I2C bus.
    pub i2c_addr: u16,
    /// Register to read when probing for the chip.
    pub check_addr: u8,
    /// What that register holds when the chip is there.
    pub check_val: u8,
}

/// The descriptor of the R820T.
pub open spec fn spec_tuner_info() -> TunerInfo {
    TunerInfo {
        id: TUNER_ID,
        name: "Rafael Micro R820T",
        i2c_addr: R820T_I2C_ADDR,
        check_addr: 0x00,
        check_val: 0x69,
    }
}

/// Returns the descriptor of the R820T.
pub fn tuner_info() -> (info: TunerInfo)
    ensures
        info == spec_tuner_info(),
{
    TunerInfo {
        id: TUNER_ID,
        name: "Rafael Micro R820T",
        i2c_addr: R820T_I2C_ADDR,
        check_addr: 0x00,
        check_val: 0x69,
    }
}

} // verus!
