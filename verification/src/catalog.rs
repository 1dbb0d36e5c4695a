//! The closed sets of options that the modulation parameters choose from,
//! each bound to the byte that the transceiver reserves for it.
use crate::order::{order_of, order_of_bytes};
use core::cmp::Ordering;
use vstd::prelude::*;
use vstd::std_specs::cmp::PartialOrdSpecImpl;
use vstd::std_specs::convert::FromSpecImpl;

verus! {

/// Receiver bandwidth options of the FSK modulation parameters.
#[derive(Debug, PartialEq, Eq, Structural, Clone, Copy, Hash, Ord)]
pub enum FskBandwidth {
    /// 4.8 kHz DSB
    Bw4,
    /// 5.8 kHz DSB
    Bw5,
    /// 7.3 kHz DSB
    Bw7,
    /// 9.7 kHz DSB
    Bw9,
    /// 11.7 kHz DSB
    Bw11,
    /// 14.6 kHz DSB
    Bw14,
    /// 19.5 kHz DSB
    Bw19,
    /// 23.4 kHz DSB
    Bw23,
    /// 29.3 kHz DSB
    Bw29,
    /// 39.0 kHz DSB
    Bw39,
    /// 46.9 kHz DSB
    Bw46,
    /// 58.6 kHz DSB
    Bw58,
    /// 78.2 kHz DSB
    Bw78,
    /// 93.8 kHz DSB
    Bw93,
    /// 117.3 kHz DSB
    Bw117,
    /// 156.2 kHz DSB
    Bw156,
    /// 187.2 kHz DSB
    Bw187,
    /// 234.3 kHz DSB
    Bw234,
    /// 312.0 kHz DSB
    Bw312,
    /// 373.6 kHz DSB
    Bw373,
    /// 467.0 kHz DSB
    Bw467,
}

impl FskBandwidth {
    /// The byte that the transceiver reserves for this option.
    pub open spec fn raw(self) -> u8 {
        match self {
            FskBandwidth::Bw4 => 0x1F,
            FskBandwidth::Bw5 => 0x17,
            FskBandwidth::Bw7 => 0x0F,
            FskBandwidth::Bw9 => 0x1E,
            FskBandwidth::Bw11 => 0x16,
            FskBandwidth::Bw14 => 0x0E,
            FskBandwidth::Bw19 => 0x1D,
            FskBandwidth::Bw23 => 0x15,
            FskBandwidth::Bw29 => 0x0D,
            FskBandwidth::Bw39 => 0x1C,
            FskBandwidth::Bw46 => 0x14,
            FskBandwidth::Bw58 => 0x0C,
            FskBandwidth::Bw78 => 0x1B,
            FskBandwidth::Bw93 => 0x13,
            FskBandwidth::Bw117 => 0x0B,
            FskBandwidth::Bw156 => 0x1A,
            FskBandwidth::Bw187 => 0x12,
            FskBandwidth::Bw234 => 0x0A,
            FskBandwidth::Bw312 => 0x19,
            FskBandwidth::Bw373 => 0x11,
            FskBandwidth::Bw467 => 0x09,
        }
    }

    /// Returns the byte that the transceiver reserves for this option.
    pub fn into_raw(self) -> (r: u8)
        ensures
            r == self.raw(),
    {
        match self {
            FskBandwidth::Bw4 => 0x1F,
            FskBandwidth::Bw5 => 0x17,
            FskBandwidth::Bw7 => 0x0F,
            FskBandwidth::Bw9 => 0x1E,
            FskBandwidth::Bw11 => 0x16,
            FskBandwidth::Bw14 => 0x0E,
            FskBandwidth::Bw19 => 0x1D,
            FskBandwidth::Bw23 => 0x15,
            FskBandwidth::Bw29 => 0x0D,
            FskBandwidth::Bw39 => 0x1C,
            FskBandwidth::Bw46 => 0x14,
            FskBandwidth::Bw58 => 0x0C,
            FskBandwidth::Bw78 => 0x1B,
            FskBandwidth::Bw93 => 0x13,
            FskBandwidth::Bw117 => 0x0B,
            FskBandwidth::Bw156 => 0x1A,
            FskBandwidth::Bw187 => 0x12,
            FskBandwidth::Bw234 => 0x0A,
            FskBandwidth::Bw312 => 0x19,
            FskBandwidth::Bw373 => 0x11,
            FskBandwidth::Bw467 => 0x09,
        }
    }

    /// The bandwidth in hertz.
    pub open spec fn hz(self) -> nat {
        match self {
            FskBandwidth::Bw4 => 4_800,
            FskBandwidth::Bw5 => 5_800,
            FskBandwidth::Bw7 => 7_300,
            FskBandwidth::Bw9 => 9_700,
            FskBandwidth::Bw11 => 11_700,
            FskBandwidth::Bw14 => 14_600,
            FskBandwidth::Bw19 => 19_500,
            FskBandwidth::Bw23 => 23_400,
            FskBandwidth::Bw29 => 29_300,
            FskBandwidth::Bw39 => 39_000,
            FskBandwidth::Bw46 => 46_900,
            FskBandwidth::Bw58 => 58_600,
            FskBandwidth::Bw78 => 78_200,
            FskBandwidth::Bw93 => 93_800,
            FskBandwidth::Bw117 => 117_300,
            FskBandwidth::Bw156 => 156_200,
            FskBandwidth::Bw187 => 187_200,
            FskBandwidth::Bw234 => 234_300,
            FskBandwidth::Bw312 => 312_000,
            FskBandwidth::Bw373 => 373_600,
            FskBandwidth::Bw467 => 467_000,
        }
    }

    /// Returns the bandwidth in hertz.
    pub fn hertz(&self) -> (r: u32)
        ensures
            r as nat == self.hz(),
    {
        match self {
            FskBandwidth::Bw4 => 4_800,
            FskBandwidth::Bw5 => 5_800,
            FskBandwidth::Bw7 => 7_300,
            FskBandwidth::Bw9 => 9_700,
            FskBandwidth::Bw11 => 11_700,
            FskBandwidth::Bw14 => 14_600,
            FskBandwidth::Bw19 => 19_500,
            FskBandwidth::Bw23 => 23_400,
            FskBandwidth::Bw29 => 29_300,
            FskBandwidth::Bw39 => 39_000,
            FskBandwidth::Bw46 => 46_900,
            FskBandwidth::Bw58 => 58_600,
            FskBandwidth::Bw78 => 78_200,
            FskBandwidth::Bw93 => 93_800,
            FskBandwidth::Bw117 => 117_300,
            FskBandwidth::Bw156 => 156_200,
            FskBandwidth::Bw187 => 187_200,
            FskBandwidth::Bw234 => 234_300,
            FskBandwidth::Bw312 => 312_000,
            FskBandwidth::Bw373 => 373_600,
            FskBandwidth::Bw467 => 467_000,
        }
    }

    /// No two bandwidths share a byte: the byte tells which one it is.
    pub proof fn lemma_raw_is_lossless(self, other: Self)
        ensures
            (self.raw() == other.raw()) == (self == other),
    {
    }

    /// No two bandwidths share their hertz.
    pub proof fn lemma_hz_is_lossless(self, other: Self)
        ensures
            (self.hz() == other.hz()) == (self == other),
    {
    }
}

/// Bandwidths are ordered by their hertz. Their bytes are not: a wider
/// bandwidth may have the smaller byte.
impl PartialOrd for FskBandwidth {
    fn partial_cmp(&self, other: &Self) -> (r: Option<Ordering>) {
        let a: u32 = self.hertz();
        let b: u32 = other.hertz();
        if a < b {
            Some(Ordering::Less)
        } else if a == b {
            Some(Ordering::Equal)
        } else {
            Some(Ordering::Greater)
        }
    }
}

impl PartialOrdSpecImpl for FskBandwidth {
    open spec fn obeys_partial_cmp_spec() -> bool {
        true
    }

    open spec fn partial_cmp_spec(&self, other: &Self) -> Option<Ordering> {
        Some(order_of(self.hz(), other.hz()))
    }
}

/// Pulse shaping options of the FSK modulation parameters.
#[derive(Debug, PartialEq, Eq, Structural, Clone, Copy, Hash, Ord)]
pub enum FskPulseShape {
    /// No filtering applied.
    NoFilter,
    /// Gaussian BT 0.3
    Bt03,
    /// Gaussian BT 0.5
    Bt05,
    /// Gaussian BT 0.7
    Bt07,
    /// Gaussian BT 1.0
    Bt10,
}

impl FskPulseShape {
    /// The byte that the transceiver reserves for this option.
    pub open spec fn raw(self) -> u8 {
        match self {
            FskPulseShape::NoFilter => 0x00,
            FskPulseShape::Bt03 => 0x08,
            FskPulseShape::Bt05 => 0x09,
            FskPulseShape::Bt07 => 0x0A,
            FskPulseShape::Bt10 => 0x0B,
        }
    }

    /// Returns the byte that the transceiver reserves for this option.
    pub fn into_raw(self) -> (r: u8)
        ensures
            r == self.raw(),
    {
        match self {
            FskPulseShape::NoFilter => 0x00,
            FskPulseShape::Bt03 => 0x08,
            FskPulseShape::Bt05 => 0x09,
            FskPulseShape::Bt07 => 0x0A,
            FskPulseShape::Bt10 => 0x0B,
        }
    }

    /// No two pulse shapes share a byte: the byte tells which one it is.
    pub proof fn lemma_raw_is_lossless(self, other: Self)
        ensures
            (self.raw() == other.raw()) == (self == other),
    {
    }
}

/// Pulse shapes are ordered by their bytes: no filter first, then the
/// Gaussian filters by their BT product.
impl PartialOrd for FskPulseShape {
    fn partial_cmp(&self, other: &Self) -> (r: Option<Ordering>) {
        let a: u8 = self.into_raw();
        let b: u8 = other.into_raw();
        if a < b {
            Some(Ordering::Less)
        } else if a == b {
            Some(Ordering::Equal)
        } else {
            Some(Ordering::Greater)
        }
    }
}

impl PartialOrdSpecImpl for FskPulseShape {
    open spec fn obeys_partial_cmp_spec() -> bool {
        true
    }

    open spec fn partial_cmp_spec(&self, other: &Self) -> Option<Ordering> {
        Some(order_of_bytes(self.raw(), other.raw()))
    }
}

/// LoRa spreading factor.
#[derive(Debug, PartialEq, Eq, Structural, Clone, Copy, Hash, Ord)]
pub enum SpreadingFactor {
    /// Spreading factor 5.
    Sf5,
    /// Spreading factor 6.
    Sf6,
    /// Spreading factor 7.
    Sf7,
    /// Spreading factor 8.
    Sf8,
    /// Spreading factor 9.
    Sf9,
    /// Spreading factor 10.
    Sf10,
    /// Spreading factor 11.
    Sf11,
    /// Spreading factor 12.
    Sf12,
}

impl SpreadingFactor {
    /// The byte that the transceiver reserves for this option.
    pub open spec fn raw(self) -> u8 {
        match self {
            SpreadingFactor::Sf5 => 0x05,
            SpreadingFactor::Sf6 => 0x06,
            SpreadingFactor::Sf7 => 0x07,
            SpreadingFactor::Sf8 => 0x08,
            SpreadingFactor::Sf9 => 0x09,
            SpreadingFactor::Sf10 => 0xA0,
            SpreadingFactor::Sf11 => 0xB0,
            SpreadingFactor::Sf12 => 0xC0,
        }
    }

    /// Returns the byte that the transceiver reserves for this option.
    pub fn into_raw(self) -> (r: u8)
        ensures
            r == self.raw(),
    {
        match self {
            SpreadingFactor::Sf5 => 0x05,
            SpreadingFactor::Sf6 => 0x06,
            SpreadingFactor::Sf7 => 0x07,
            SpreadingFactor::Sf8 => 0x08,
            SpreadingFactor::Sf9 => 0x09,
            SpreadingFactor::Sf10 => 0xA0,
            SpreadingFactor::Sf11 => 0xB0,
            SpreadingFactor::Sf12 => 0xC0,
        }
    }

    /// No two spreading factors share a byte: the byte tells which one it is.
    pub proof fn lemma_raw_is_lossless(self, other: Self)
        ensures
            (self.raw() == other.raw()) == (self == other),
    {
    }
}

/// Spreading factors are ordered by their bytes, which grow with the factor.
impl PartialOrd for SpreadingFactor {
    fn partial_cmp(&self, other: &Self) -> (r: Option<Ordering>) {
        let a: u8 = self.into_raw();
        let b: u8 = other.into_raw();
        if a < b {
            Some(Ordering::Less)
        } else if a == b {
            Some(Ordering::Equal)
        } else {
            Some(Ordering::Greater)
        }
    }
}

impl PartialOrdSpecImpl for SpreadingFactor {
    open spec fn obeys_partial_cmp_spec() -> bool {
        true
    }

    open spec fn partial_cmp_spec(&self, other: &Self) -> Option<Ordering> {
        Some(order_of_bytes(self.raw(), other.raw()))
    }
}

impl From<SpreadingFactor> for u8 {
    fn from(sf: SpreadingFactor) -> (r: u8) {
        sf.into_raw()
    }
}

impl FromSpecImpl<SpreadingFactor> for u8 {
    open spec fn obeys_from_spec() -> bool {
        true
    }

    open spec fn from_spec(sf: SpreadingFactor) -> u8 {
        sf.raw()
    }
}

/// LoRa bandwidth.
#[derive(Debug, PartialEq, Eq, Structural, Clone, Copy, Hash, Ord)]
pub enum LoRaBandwidth {
    /// 7.81 kHz
    Bw7,
    /// 10.42 kHz
    Bw10,
    /// 15.63 kHz
    Bw15,
    /// 20.83 kHz
    Bw20,
    /// 31.25 kHz
    Bw31,
    /// 41.67 kHz
    Bw41,
    /// 62.50 kHz
    Bw62,
    /// 125 kHz
    Bw125,
    /// 250 kHz
    Bw250,
    /// 500 kHz
    Bw500,
}

impl LoRaBandwidth {
    /// The byte that the transceiver reserves for this option.
    pub open spec fn raw(self) -> u8 {
        match self {
            LoRaBandwidth::Bw7 => 0x00,
            LoRaBandwidth::Bw10 => 0x08,
            LoRaBandwidth::Bw15 => 0x01,
            LoRaBandwidth::Bw20 => 0x09,
            LoRaBandwidth::Bw31 => 0x02,
            LoRaBandwidth::Bw41 => 0x0A,
            LoRaBandwidth::Bw62 => 0x03,
            LoRaBandwidth::Bw125 => 0x04,
            LoRaBandwidth::Bw250 => 0x05,
            LoRaBandwidth::Bw500 => 0x06,
        }
    }

    /// Returns the byte that the transceiver reserves for this option.
    pub fn into_raw(self) -> (r: u8)
        ensures
            r == self.raw(),
    {
        match self {
            LoRaBandwidth::Bw7 => 0x00,
            LoRaBandwidth::Bw10 => 0x08,
            LoRaBandwidth::Bw15 => 0x01,
            LoRaBandwidth::Bw20 => 0x09,
            LoRaBandwidth::Bw31 => 0x02,
            LoRaBandwidth::Bw41 => 0x0A,
            LoRaBandwidth::Bw62 => 0x03,
            LoRaBandwidth::Bw125 => 0x04,
            LoRaBandwidth::Bw250 => 0x05,
            LoRaBandwidth::Bw500 => 0x06,
        }
    }

    /// The bandwidth in hertz.
    pub open spec fn hz(self) -> nat {
        match self {
            LoRaBandwidth::Bw7 => 7_810,
            LoRaBandwidth::Bw10 => 10_420,
            LoRaBandwidth::Bw15 => 15_630,
            LoRaBandwidth::Bw20 => 20_830,
            LoRaBandwidth::Bw31 => 31_250,
            LoRaBandwidth::Bw41 => 41_670,
            LoRaBandwidth::Bw62 => 62_500,
            LoRaBandwidth::Bw125 => 125_000,
            LoRaBandwidth::Bw250 => 250_000,
            LoRaBandwidth::Bw500 => 500_000,
        }
    }

    /// Returns the bandwidth in hertz.
    pub fn hertz(&self) -> (r: u32)
        ensures
            r as nat == self.hz(),
    {
        match self {
            LoRaBandwidth::Bw7 => 7_810,
            LoRaBandwidth::Bw10 => 10_420,
            LoRaBandwidth::Bw15 => 15_630,
            LoRaBandwidth::Bw20 => 20_830,
            LoRaBandwidth::Bw31 => 31_250,
            LoRaBandwidth::Bw41 => 41_670,
            LoRaBandwidth::Bw62 => 62_500,
            LoRaBandwidth::Bw125 => 125_000,
            LoRaBandwidth::Bw250 => 250_000,
            LoRaBandwidth::Bw500 => 500_000,
        }
    }

    /// No two bandwidths share a byte: the byte tells which one it is.
    pub proof fn lemma_raw_is_lossless(self, other: Self)
        ensures
            (self.raw() == other.raw()) == (self == other),
    {
    }

    /// No two bandwidths share their hertz.
    pub proof fn lemma_hz_is_lossless(self, other: Self)
        ensures
            (self.hz() == other.hz()) == (self == other),
    {
    }
}

/// Bandwidths are ordered by their hertz. Their bytes are not: a wider
/// bandwidth may have the smaller byte.
impl PartialOrd for LoRaBandwidth {
    fn partial_cmp(&self, other: &Self) -> (r: Option<Ordering>) {
        let a: u32 = self.hertz();
        let b: u32 = other.hertz();
        if a < b {
            Some(Ordering::Less)
        } else if a == b {
            Some(Ordering::Equal)
        } else {
            Some(Ordering::Greater)
        }
    }
}

impl PartialOrdSpecImpl for LoRaBandwidth {
    open spec fn obeys_partial_cmp_spec() -> bool {
        true
    }

    open spec fn partial_cmp_spec(&self, other: &Self) -> Option<Ordering> {
        Some(order_of(self.hz(), other.hz()))
    }
}

/// LoRa forward error correction coding rate.
#[derive(Debug, PartialEq, Eq, Structural, Clone, Copy, Hash, Ord)]
pub enum CodingRate {
    /// No forward error correction, coding rate 4/4
    Cr44,
    /// Forward error correction, coding rate 4/5
    Cr45,
    /// Forward error correction, coding rate 4/6
    Cr46,
    /// Forward error correction, coding rate 4/7
    Cr47,
    /// Forward error correction, coding rate 4/8
    Cr48,
}

impl CodingRate {
    /// The byte that the transceiver reserves for this option.
    pub open spec fn raw(self) -> u8 {
        match self {
            CodingRate::Cr44 => 0x00,
            CodingRate::Cr45 => 0x01,
            CodingRate::Cr46 => 0x02,
            CodingRate::Cr47 => 0x03,
            CodingRate::Cr48 => 0x04,
        }
    }

    /// Returns the byte that the transceiver reserves for this option.
    pub fn into_raw(self) -> (r: u8)
        ensures
            r == self.raw(),
    {
        match self {
            CodingRate::Cr44 => 0x00,
            CodingRate::Cr45 => 0x01,
            CodingRate::Cr46 => 0x02,
            CodingRate::Cr47 => 0x03,
            CodingRate::Cr48 => 0x04,
        }
    }

    /// No two coding rates share a byte: the byte tells which one it is.
    pub proof fn lemma_raw_is_lossless(self, other: Self)
        ensures
            (self.raw() == other.raw()) == (self == other),
    {
    }
}

/// Coding rates are ordered by their bytes, which grow with the overhead.
impl PartialOrd for CodingRate {
    fn partial_cmp(&self, other: &Self) -> (r: Option<Ordering>) {
        let a: u8 = self.into_raw();
        let b: u8 = other.into_raw();
        if a < b {
            Some(Ordering::Less)
        } else if a == b {
            Some(Ordering::Equal)
        } else {
            Some(Ordering::Greater)
        }
    }
}

impl PartialOrdSpecImpl for CodingRate {
    open spec fn obeys_partial_cmp_spec() -> bool {
        true
    }

    open spec fn partial_cmp_spec(&self, other: &Self) -> Option<Ordering> {
        Some(order_of_bytes(self.raw(), other.raw()))
    }
}

} // verus!
