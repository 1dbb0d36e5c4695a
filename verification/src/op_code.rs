//! Operation codes of the transceiver commands whose arguments this crate
//! encodes.
use vstd::prelude::*;

verus! {

/// Leading byte of the command that sets the modulation parameters.
pub const SET_MODULATION_PARAMS: u8 = 0x8B;

/// Leading byte of the command that sets the transmit parameters.
pub const SET_TX_PARAMS: u8 = 0x8E;

} // verus!
