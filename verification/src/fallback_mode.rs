//! The mode that the transceiver enters after a packet was sent or received.
use vstd::prelude::*;
use vstd::std_specs::convert::FromSpecImpl;

verus! {

/// Fallback mode after a successful packet transmission or reception.
#[derive(Debug, PartialEq, Eq, Structural, Clone, Copy, Hash)]
pub enum FallbackMode {
    /// Standby mode entry.
    Standby,
    /// Standby with HSE32 enabled.
    StandbyHse32,
    /// Frequency synthesizer entry.
    Fs,
}

impl FallbackMode {
    /// The byte that the transceiver reserves for this mode.
    pub open spec fn raw(self) -> u8 {
        match self {
            FallbackMode::Standby => 0x20,
            FallbackMode::StandbyHse32 => 0x30,
            FallbackMode::Fs => 0x40,
        }
    }

    /// Returns the byte that the transceiver reserves for this mode.
    pub fn into_raw(self) -> (r: u8)
        ensures
            r == self.raw(),
    {
        match self {
            FallbackMode::Standby => 0x20,
            FallbackMode::StandbyHse32 => 0x30,
            FallbackMode::Fs => 0x40,
        }
    }

    /// No two modes share a byte: the byte tells which one it is.
    pub proof fn lemma_raw_is_lossless(self, other: Self)
        ensures
            (self.raw() == other.raw()) == (self == other),
    {
    }
}

impl From<FallbackMode> for u8 {
    fn from(fm: FallbackMode) -> (r: u8) {
        fm.into_raw()
    }
}

impl FromSpecImpl<FallbackMode> for u8 {
    open spec fn obeys_from_spec() -> bool {
        true
    }

    open spec fn from_spec(fm: FallbackMode) -> u8 {
        fm.raw()
    }
}

impl Default for FallbackMode {
    /// The fallback mode after power-on reset.
    fn default() -> (r: Self)
        ensures
            r == FallbackMode::Standby,
    {
        FallbackMode::Standby
    }
}

} // verus!
