//! Fixed-point register encodings of bitrate and frequency deviation.
use crate::order::order_of;
use core::cmp::Ordering;
use vstd::prelude::*;
use vstd::std_specs::cmp::PartialOrdSpecImpl;

verus! {

/// Largest value of a 24-bit register field.
pub const RAW_MAX: u32 = 0x00FF_FFFF;

/// Thirty-two times the 32 MHz reference clock, the numerator of the
/// bitrate formula.
pub const BITRATE_NUMERATOR: u32 = 1_024_000_000;

/// The reference clock in hertz.
pub const CLOCK_HZ: u32 = 32_000_000;

/// Two to the power of 25, the scale of the frequency-deviation formula.
pub const FDEV_SCALE: u32 = 0x0200_0000;

/// The register value for a bitrate in bits per second: the quotient
/// `32 * 32 MHz / bps` rounded down, and the field's maximum where `bps` is
/// zero or the quotient does not fit in 24 bits.
pub open spec fn bitrate_bits(bps: nat) -> nat {
    if bps == 0 || BITRATE_NUMERATOR as nat / bps > RAW_MAX as nat {
        RAW_MAX as nat
    } else {
        BITRATE_NUMERATOR as nat / bps
    }
}

/// The bitrate in bits per second that a register value stands for, rounded
/// down; zero for the register value zero.
pub open spec fn bitrate_bps(bits: nat) -> nat {
    if bits == 0 {
        0
    } else {
        BITRATE_NUMERATOR as nat / bits
    }
}

/// The register value for a frequency deviation in hertz: the quotient
/// `hz * 2^25 / 32 MHz` rounded down, of which the low 24 bits are kept.
pub open spec fn fdev_bits(hz: nat) -> nat {
    (hz * FDEV_SCALE as nat / CLOCK_HZ as nat) % 0x100_0000
}

/// The frequency deviation in hertz that a register value stands for,
/// rounded down.
pub open spec fn fdev_hertz(bits: nat) -> nat {
    bits * CLOCK_HZ as nat / FDEV_SCALE as nat
}

/// Bitrate argument of the FSK and BPSK modulation parameters.
#[derive(Debug, PartialEq, Eq, Structural, Clone, Copy, Hash)]
pub struct FskBitrate {
    bits: u32,
}

impl View for FskBitrate {
    type V = nat;

    /// The raw 24-bit register value.
    closed spec fn view(&self) -> nat {
        self.bits as nat
    }
}

impl FskBitrate {
    #[verifier::type_invariant]
    spec fn fits_field(self) -> bool {
        self.bits <= RAW_MAX
    }

    /// The bitrate in bits per second that this value stands for.
    pub open spec fn bps(self) -> nat {
        bitrate_bps(self@)
    }

    /// Creates a bitrate from bits per second, rounded down in register
    /// units and saturated at the largest register value.
    pub fn from_bps(bps: u32) -> (r: Self)
        ensures
            r@ == bitrate_bits(bps as nat),
            r@ <= RAW_MAX,
    {
        if bps == 0 {
            Self { bits: RAW_MAX }
        } else {
            let bits: u32 = BITRATE_NUMERATOR / bps;
            if bits > RAW_MAX {
                Self { bits: RAW_MAX }
            } else {
                Self { bits }
            }
        }
    }

    /// Creates a bitrate from a raw register value, of which only the low
    /// 24 bits are kept.
    pub fn from_raw(bits: u32) -> (r: Self)
        ensures
            r@ == bits as nat % 0x100_0000,
            r@ <= RAW_MAX,
    {
        let masked: u32 = bits & 0x00FF_FFFF;
        assert(masked == bits % 0x100_0000 && masked <= 0x00FF_FFFF) by (bit_vector)
            requires
                masked == bits & 0x00FF_FFFF,
        ;
        Self { bits: masked }
    }

    /// Returns the bitrate in bits per second, rounded down.
    pub fn as_bps(&self) -> (r: u32)
        ensures
            r as nat == self.bps(),
    {
        if self.bits == 0 {
            0
        } else {
            BITRATE_NUMERATOR / self.bits
        }
    }

    /// Returns the raw 24-bit register value.
    pub fn into_bits(self) -> (r: u32)
        ensures
            r as nat == self@,
            r <= RAW_MAX,
    {
        proof {
            use_type_invariant(&self);
        }
        self.bits
    }
}

/// Two bitrates with one register value are the same bitrate.
pub proof fn lemma_bitrate_is_its_register_value(a: FskBitrate, b: FskBitrate)
    ensures
        (a@ == b@) == (a == b),
{
}

/// Bitrates are ordered by the bits per second that they stand for, not by
/// their register values: two register values that round to the same rate
/// compare as equal.
impl PartialOrd for FskBitrate {
    fn partial_cmp(&self, other: &Self) -> (r: Option<Ordering>) {
        let a: u32 = self.as_bps();
        let b: u32 = other.as_bps();
        if a < b {
            Some(Ordering::Less)
        } else if a == b {
            Some(Ordering::Equal)
        } else {
            Some(Ordering::Greater)
        }
    }
}

impl PartialOrdSpecImpl for FskBitrate {
    open spec fn obeys_partial_cmp_spec() -> bool {
        true
    }

    open spec fn partial_cmp_spec(&self, other: &Self) -> Option<Ordering> {
        Some(order_of(self.bps(), other.bps()))
    }
}

/// Frequency-deviation argument of the FSK modulation parameters.
#[derive(Debug, PartialEq, Eq, Structural, Clone, Copy, Hash, Ord)]
pub struct FskFdev {
    bits: u32,
}

impl View for FskFdev {
    type V = nat;

    /// The raw 24-bit register value.
    closed spec fn view(&self) -> nat {
        self.bits as nat
    }
}

impl FskFdev {
    #[verifier::type_invariant]
    spec fn fits_field(self) -> bool {
        self.bits <= RAW_MAX
    }

    /// The frequency deviation in hertz that this value stands for.
    pub open spec fn hertz(self) -> nat {
        fdev_hertz(self@)
    }

    /// Creates a frequency deviation from hertz, rounded down in register
    /// units. A result that does not fit in 24 bits loses its high bits.
    pub fn from_hertz(hz: u32) -> (r: Self)
        ensures
            r@ == fdev_bits(hz as nat),
            r@ <= RAW_MAX,
    {
        let wide: u64 = hz as u64;
        assert(wide * 0x0200_0000 <= 0xFFFF_FFFF * 0x0200_0000);
        let quotient: u64 = wide * 0x0200_0000 / 32_000_000;
        let masked: u64 = quotient & 0x00FF_FFFF;
        assert(masked == quotient % 0x100_0000 && masked <= 0x00FF_FFFF) by (bit_vector)
            requires
                masked == quotient & 0x00FF_FFFF,
        ;
        Self { bits: masked as u32 }
    }

    /// Creates a frequency deviation from a raw register value, of which
    /// only the low 24 bits are kept.
    pub fn from_raw(bits: u32) -> (r: Self)
        ensures
            r@ == bits as nat % 0x100_0000,
            r@ <= RAW_MAX,
    {
        let masked: u32 = bits & 0x00FF_FFFF;
        assert(masked == bits % 0x100_0000 && masked <= 0x00FF_FFFF) by (bit_vector)
            requires
                masked == bits & 0x00FF_FFFF,
        ;
        Self { bits: masked }
    }

    /// Returns the frequency deviation in hertz, rounded down.
    pub fn as_hertz(&self) -> (r: u32)
        ensures
            r as nat == self.hertz(),
    {
        proof {
            use_type_invariant(self);
        }
        let wide: u64 = self.bits as u64;
        let hz: u64 = wide * 32_000_000 / 0x0200_0000;
        hz as u32
    }

    /// Returns the raw 24-bit register value.
    pub fn into_bits(self) -> (r: u32)
        ensures
            r as nat == self@,
            r <= RAW_MAX,
    {
        proof {
            use_type_invariant(&self);
        }
        self.bits
    }
}

/// Two frequency deviations with one register value are the same frequency
/// deviation.
pub proof fn lemma_fdev_is_its_register_value(a: FskFdev, b: FskFdev)
    ensures
        (a@ == b@) == (a == b),
{
}

/// Frequency deviations are ordered by their register values, which grow
/// with the hertz that they stand for.
impl PartialOrd for FskFdev {
    fn partial_cmp(&self, other: &Self) -> (r: Option<Ordering>) {
        if self.bits < other.bits {
            Some(Ordering::Less)
        } else if self.bits == other.bits {
            Some(Ordering::Equal)
        } else {
            Some(Ordering::Greater)
        }
    }
}

impl PartialOrdSpecImpl for FskFdev {
    open spec fn obeys_partial_cmp_spec() -> bool {
        true
    }

    open spec fn partial_cmp_spec(&self, other: &Self) -> Option<Ordering> {
        Some(order_of(self@, other@))
    }
}

/// A bitrate whose register value does not saturate is read back exactly
/// where the remainder of the division is below its quotient, and nowhere
/// else. Where the quotient is not zero, what is read back is never below
/// the bitrate.
pub proof fn lemma_bitrate_round_trip(bps: nat)
    requires
        bps > 0,
        BITRATE_NUMERATOR as nat / bps <= RAW_MAX as nat,
    ensures
        bitrate_bps(bitrate_bits(bps)) == bps <==> BITRATE_NUMERATOR as nat % bps
            < BITRATE_NUMERATOR as nat / bps,
        bps <= BITRATE_NUMERATOR as nat ==> bitrate_bps(bitrate_bits(bps)) >= bps,
{
    let n = BITRATE_NUMERATOR as nat;
    let q = n / bps;
    let r = n % bps;
    assert(n == bps * q + r && r < bps && (bps <= n ==> q > 0)) by (nonlinear_arith)
        requires
            bps > 0,
            q == n / bps,
            r == n % bps,
    ;
    if q > 0 {
        let back = n / q;
        assert(back >= bps && (back == bps <==> r < q)) by (nonlinear_arith)
            requires
                q > 0,
                n == bps * q + r,
                back == n / q,
        ;
    }
}

/// A bitrate that divides the numerator of the formula, and is not so low
/// that its register value saturates, is read back exactly.
pub proof fn lemma_bitrate_round_trip_of_divisor(bps: nat)
    requires
        bps > 0,
        BITRATE_NUMERATOR as nat % bps == 0,
        BITRATE_NUMERATOR as nat / bps <= RAW_MAX as nat,
    ensures
        bitrate_bps(bitrate_bits(bps)) == bps,
{
    let n = BITRATE_NUMERATOR as nat;
    assert(n / bps > 0) by (nonlinear_arith)
        requires
            bps > 0,
            n > 0,
            n % bps == 0,
    ;
    lemma_bitrate_round_trip(bps);
}

/// The hertz that a register value of the frequency deviation stands for
/// grow with the register value.
pub proof fn lemma_fdev_hertz_grows(a: nat, b: nat)
    requires
        a <= b,
    ensures
        fdev_hertz(a) <= fdev_hertz(b),
{
    let c = CLOCK_HZ as nat;
    let s = FDEV_SCALE as nat;
    assert(a * c / s <= b * c / s) by (nonlinear_arith)
        requires
            a <= b,
            c > 0,
            s > 0,
    ;
}

/// A frequency deviation below half the reference clock, which is where
/// its register value keeps all its bits, is read back as itself or as one
/// hertz less.
pub proof fn lemma_fdev_round_trip(hz: nat)
    requires
        2 * hz < CLOCK_HZ as nat,
    ensures
        fdev_bits(hz) == hz * FDEV_SCALE as nat / CLOCK_HZ as nat,
        hz <= fdev_hertz(fdev_bits(hz)) + 1,
        fdev_hertz(fdev_bits(hz)) <= hz,
{
    let c = CLOCK_HZ as nat;
    let s = FDEV_SCALE as nat;
    let b = hz * s / c;
    assert(b < 0x100_0000 && b * c <= hz * s && hz * s < b * c + c) by (nonlinear_arith)
        requires
            c == 32_000_000,
            s == 0x0200_0000,
            2 * hz < c,
            b == hz * s / c,
    ;
    let h = b * c / s;
    assert(h <= hz && hz <= h + 1) by (nonlinear_arith)
        requires
            c == 32_000_000,
            s == 0x0200_0000,
            b * c <= hz * s,
            hz * s < b * c + c,
            h == b * c / s,
    ;
}

} // verus!
