//! Command buffer for the transmit parameters: output power and the ramp
//! time of the power amplifier.
use crate::bytes::same_bytes;
use crate::op_code::SET_TX_PARAMS;
use crate::order::order_of;
use core::cmp::Ordering;
use core::time::Duration;
use vstd::prelude::*;
use vstd::std_specs::cmp::{PartialEqSpecImpl, PartialOrdSpecImpl};
use vstd::std_specs::convert::FromSpecImpl;

verus! {

/// Ramp time of the power amplifier for FSK, MSK and LoRa modulation.
#[derive(Debug, PartialEq, Eq, Structural, Clone, Copy, Hash, Ord)]
pub enum RampTime {
    /// 10 µs
    Micros10,
    /// 20 µs
    Micros20,
    /// 40 µs
    Micros40,
    /// 80 µs
    Micros80,
    /// 200 µs
    Micros200,
    /// 800 µs
    Micros800,
    /// 1.7 ms
    Micros1700,
    /// 3.4 ms
    Micros3400,
}

impl RampTime {
    /// The byte that the transceiver reserves for this ramp time.
    pub open spec fn raw(self) -> u8 {
        match self {
            RampTime::Micros10 => 0x00,
            RampTime::Micros20 => 0x01,
            RampTime::Micros40 => 0x02,
            RampTime::Micros80 => 0x03,
            RampTime::Micros200 => 0x04,
            RampTime::Micros800 => 0x05,
            RampTime::Micros1700 => 0x06,
            RampTime::Micros3400 => 0x07,
        }
    }

    /// Returns the byte that the transceiver reserves for this ramp time.
    pub fn into_raw(self) -> (r: u8)
        ensures
            r == self.raw(),
    {
        match self {
            RampTime::Micros10 => 0x00,
            RampTime::Micros20 => 0x01,
            RampTime::Micros40 => 0x02,
            RampTime::Micros80 => 0x03,
            RampTime::Micros200 => 0x04,
            RampTime::Micros800 => 0x05,
            RampTime::Micros1700 => 0x06,
            RampTime::Micros3400 => 0x07,
        }
    }

    /// The ramp time in microseconds.
    pub open spec fn micros(self) -> nat {
        match self {
            RampTime::Micros10 => 10,
            RampTime::Micros20 => 20,
            RampTime::Micros40 => 40,
            RampTime::Micros80 => 80,
            RampTime::Micros200 => 200,
            RampTime::Micros800 => 800,
            RampTime::Micros1700 => 1700,
            RampTime::Micros3400 => 3400,
        }
    }

    /// Returns the ramp time in microseconds.
    pub fn as_micros(&self) -> (r: u64)
        ensures
            r == self.micros(),
    {
        match self {
            RampTime::Micros10 => 10,
            RampTime::Micros20 => 20,
            RampTime::Micros40 => 40,
            RampTime::Micros80 => 80,
            RampTime::Micros200 => 200,
            RampTime::Micros800 => 800,
            RampTime::Micros1700 => 1700,
            RampTime::Micros3400 => 3400,
        }
    }

    /// No two ramp times share a byte: the byte tells which one it is.
    pub proof fn lemma_raw_is_lossless(self, other: Self)
        ensures
            (self.raw() == other.raw()) == (self == other),
    {
    }
}

/// Ramp times are ordered by their microseconds.
impl PartialOrd for RampTime {
    fn partial_cmp(&self, other: &Self) -> (r: Option<Ordering>) {
        let a: u64 = self.as_micros();
        let b: u64 = other.as_micros();
        if a < b {
            Some(Ordering::Less)
        } else if a == b {
            Some(Ordering::Equal)
        } else {
            Some(Ordering::Greater)
        }
    }
}

impl PartialOrdSpecImpl for RampTime {
    open spec fn obeys_partial_cmp_spec() -> bool {
        true
    }

    open spec fn partial_cmp_spec(&self, other: &Self) -> Option<Ordering> {
        Some(order_of(self.micros(), other.micros()))
    }
}

impl From<RampTime> for u8 {
    fn from(rt: RampTime) -> (r: u8) {
        rt.into_raw()
    }
}

impl FromSpecImpl<RampTime> for u8 {
    open spec fn obeys_from_spec() -> bool {
        true
    }

    open spec fn from_spec(rt: RampTime) -> u8 {
        rt.raw()
    }
}

/// The duration that `Duration::from_micros` makes of a number of
/// microseconds.
pub uninterp spec fn duration_of_micros(micros: u64) -> Duration;

/// Calls `Duration::from_micros`, which makes a duration of a whole number
/// of microseconds and cannot fail. Nothing is proved of the duration: it is
/// only given its name.
#[verifier::external_body]
fn duration_from_micros(micros: u64) -> (r: Duration)
    ensures
        r == duration_of_micros(micros),
{
    Duration::from_micros(micros)
}

impl From<RampTime> for Duration {
    fn from(rt: RampTime) -> (r: Duration) {
        duration_from_micros(rt.as_micros())
    }
}

impl FromSpecImpl<RampTime> for Duration {
    open spec fn obeys_from_spec() -> bool {
        true
    }

    open spec fn from_spec(rt: RampTime) -> Duration {
        duration_of_micros(rt.micros() as u64)
    }
}

/// The transmit command with the given field values: the operation code, the
/// output power and the ramp time.
pub open spec fn tx_layout(power: u8, rt: RampTime) -> Seq<u8> {
    seq![SET_TX_PARAMS, power, rt.raw()]
}

/// A transmit command with its output power replaced.
pub open spec fn tx_with_power(buf: Seq<u8>, power: u8) -> Seq<u8> {
    buf.update(1, power)
}

/// A transmit command with its ramp time replaced.
pub open spec fn tx_with_ramp_time(buf: Seq<u8>, rt: RampTime) -> Seq<u8> {
    buf.update(2, rt.raw())
}

/// Transmit parameters: a command of three bytes.
#[derive(Debug, Eq, Clone, Copy)]
pub struct TxParams {
    buf: [u8; 3],
}

impl View for TxParams {
    type V = Seq<u8>;

    /// The bytes of the command, in the order of transmission.
    closed spec fn view(&self) -> Seq<u8> {
        self.buf@
    }
}

impl TxParams {
    #[verifier::type_invariant]
    spec fn starts_with_op_code(self) -> bool {
        self.buf@[0] == SET_TX_PARAMS
    }

    /// Creates the command with power byte zero and the shortest ramp time.
    pub fn new() -> (r: TxParams)
        ensures
            r@ == tx_layout(0x00, RampTime::Micros10),
    {
        let r = TxParams { buf: [SET_TX_PARAMS, 0x00, 0x00] };
        assert(r@ =~= tx_layout(0x00, RampTime::Micros10));
        r
    }

    /// Sets the output power: byte 1, taken as it is.
    ///
    /// Which bytes the transceiver accepts depends on how its power
    /// amplifier is set up. With the low-power amplifier `0x0E` is +14 dB,
    /// `0x00` is 0 dB and `0xEF` is -17 dB; with the high-power amplifier
    /// `0x16` is +22 dB, `0x00` is 0 dB and `0xF7` is -9 dB. The bytes
    /// outside these ranges are reserved. None is refused here.
    #[must_use]
    pub fn set_power(self, power: u8) -> (r: TxParams)
        ensures
            r@ == tx_with_power(self@, power),
    {
        proof {
            use_type_invariant(&self);
        }
        let mut buf = self.buf;
        buf[1] = power;
        TxParams { buf }
    }

    /// Sets the ramp time of the power amplifier: byte 2.
    #[must_use]
    pub fn set_ramp_time(self, rt: RampTime) -> (r: TxParams)
        ensures
            r@ == tx_with_ramp_time(self@, rt),
    {
        proof {
            use_type_invariant(&self);
        }
        let mut buf = self.buf;
        buf[2] = rt.into_raw();
        TxParams { buf }
    }

    /// Returns the bytes of the command, in the order of transmission.
    pub fn as_slice(&self) -> (r: &[u8])
        ensures
            r@ == self@,
            r@.len() == 3,
            r@[0] == SET_TX_PARAMS,
    {
        proof {
            use_type_invariant(self);
        }
        &self.buf
    }
}

/// Two commands are equal where their bytes are.
impl PartialEq for TxParams {
    fn eq(&self, other: &Self) -> (r: bool) {
        same_bytes(&self.buf, &other.buf)
    }
}

impl PartialEqSpecImpl for TxParams {
    open spec fn obeys_eq_spec() -> bool {
        true
    }

    open spec fn eq_spec(&self, other: &Self) -> bool {
        self@ == other@
    }
}

impl Default for TxParams {
    fn default() -> (r: Self)
        ensures
            r@ == tx_layout(0x00, RampTime::Micros10),
    {
        Self::new()
    }
}

/// The two setters commute: whichever is applied first, the command is the
/// same.
pub proof fn lemma_tx_setters_commute(p: TxParams, power: u8, rt: RampTime)
    ensures
        tx_with_ramp_time(tx_with_power(p@, power), rt) == tx_with_power(
            tx_with_ramp_time(p@, rt),
            power,
        ),
{
    assert(p@.len() == 3);
    assert(tx_with_ramp_time(tx_with_power(p@, power), rt) =~= tx_with_power(
        tx_with_ramp_time(p@, rt),
        power,
    ));
}

/// Once both fields of a command have been set, the command is the layout
/// of the two values, whatever it held before.
pub proof fn lemma_tx_setters_fill_layout(p: TxParams, power: u8, rt: RampTime)
    requires
        p@[0] == SET_TX_PARAMS,
    ensures
        tx_with_ramp_time(tx_with_power(p@, power), rt) == tx_layout(power, rt),
{
    assert(p@.len() == 3);
    assert(tx_with_ramp_time(tx_with_power(p@, power), rt) =~= tx_layout(power, rt));
}

} // verus!
