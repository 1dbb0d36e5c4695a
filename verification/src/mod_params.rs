//! Command buffers for the modulation parameters of the three modulation
//! schemes.
use crate::bytes::{be24, same_bytes, split_be24, with_be24};
use crate::catalog::{CodingRate, FskBandwidth, FskPulseShape, LoRaBandwidth, SpreadingFactor};
use crate::op_code::SET_MODULATION_PARAMS;
use crate::units::{bitrate_bits, fdev_bits, FskBitrate, FskFdev};
use vstd::prelude::*;
use vstd::std_specs::cmp::PartialEqSpecImpl;

verus! {

/// The FSK command with the given field values: the operation code, the
/// bitrate, the pulse shape, the bandwidth and the frequency deviation.
pub open spec fn fsk_layout(
    bitrate: nat,
    shape: FskPulseShape,
    bw: FskBandwidth,
    fdev: nat,
) -> Seq<u8> {
    seq![SET_MODULATION_PARAMS] + be24(bitrate) + seq![shape.raw(), bw.raw()] + be24(fdev)
}

/// An FSK command with its bitrate field replaced.
pub open spec fn fsk_with_bitrate(buf: Seq<u8>, bits: nat) -> Seq<u8> {
    with_be24(buf, 1, bits)
}

/// An FSK command with its pulse shape replaced.
pub open spec fn fsk_with_pulse_shape(buf: Seq<u8>, shape: FskPulseShape) -> Seq<u8> {
    buf.update(4, shape.raw())
}

/// An FSK command with its bandwidth replaced.
pub open spec fn fsk_with_bandwidth(buf: Seq<u8>, bw: FskBandwidth) -> Seq<u8> {
    buf.update(5, bw.raw())
}

/// An FSK command with its frequency-deviation field replaced.
pub open spec fn fsk_with_fdev(buf: Seq<u8>, bits: nat) -> Seq<u8> {
    with_be24(buf, 6, bits)
}

/// (G)FSK modulation parameters: a command of nine bytes.
#[derive(Debug, Eq, Clone, Copy)]
pub struct FskModParams {
    buf: [u8; 9],
}

impl View for FskModParams {
    type V = Seq<u8>;

    /// The bytes of the command, in the order of transmission.
    closed spec fn view(&self) -> Seq<u8> {
        self.buf@
    }
}

impl FskModParams {
    #[verifier::type_invariant]
    spec fn starts_with_op_code(self) -> bool {
        self.buf@[0] == SET_MODULATION_PARAMS
    }

    /// Creates the command with the recommended settings: 50 000 bits per
    /// second, no pulse shaping, 58.6 kHz bandwidth and 25 kHz frequency
    /// deviation.
    pub fn new() -> (r: FskModParams)
        ensures
            r@ == fsk_layout(
                bitrate_bits(50_000),
                FskPulseShape::NoFilter,
                FskBandwidth::Bw58,
                fdev_bits(25_000),
            ),
            r@ == seq![0x8Bu8, 0x00, 0x50, 0x00, 0x00, 0x0C, 0x00, 0x66, 0x66],
    {
        let blank = FskModParams {
            buf: [SET_MODULATION_PARAMS, 0x00, 0x00, 0x00, 0x00, 0x00, 0x00, 0x00, 0x00],
        };
        let r = blank.set_bitrate(FskBitrate::from_bps(50_000)).set_pulse_shape(
            FskPulseShape::NoFilter,
        ).set_bandwidth(FskBandwidth::Bw58).set_fdev(FskFdev::from_hertz(25_000));
        proof {
            assert(bitrate_bits(50_000) == 0x5000) by (nonlinear_arith);
            assert(fdev_bits(25_000) == 0x6666) by (nonlinear_arith);
            assert(r@ =~= fsk_layout(
                bitrate_bits(50_000),
                FskPulseShape::NoFilter,
                FskBandwidth::Bw58,
                fdev_bits(25_000),
            ));
            assert(r@ =~= seq![0x8Bu8, 0x00, 0x50, 0x00, 0x00, 0x0C, 0x00, 0x66, 0x66]);
        }
        r
    }

    /// Sets the bitrate: bytes 1 to 3, most significant first.
    #[must_use]
    pub fn set_bitrate(self, bitrate: FskBitrate) -> (r: FskModParams)
        ensures
            r@ == fsk_with_bitrate(self@, bitrate@),
    {
        proof {
            use_type_invariant(&self);
        }
        let mut buf = self.buf;
        let (hi, mid, lo) = split_be24(bitrate.into_bits());
        buf[1] = hi;
        buf[2] = mid;
        buf[3] = lo;
        FskModParams { buf }
    }

    /// Sets the pulse shape: byte 4.
    #[must_use]
    pub fn set_pulse_shape(self, shape: FskPulseShape) -> (r: FskModParams)
        ensures
            r@ == fsk_with_pulse_shape(self@, shape),
    {
        proof {
            use_type_invariant(&self);
        }
        let mut buf = self.buf;
        buf[4] = shape.into_raw();
        FskModParams { buf }
    }

    /// Sets the bandwidth: byte 5.
    #[must_use]
    pub fn set_bandwidth(self, bw: FskBandwidth) -> (r: FskModParams)
        ensures
            r@ == fsk_with_bandwidth(self@, bw),
    {
        proof {
            use_type_invariant(&self);
        }
        let mut buf = self.buf;
        buf[5] = bw.into_raw();
        FskModParams { buf }
    }

    /// Sets the frequency deviation: bytes 6 to 8, most significant first.
    #[must_use]
    pub fn set_fdev(self, fdev: FskFdev) -> (r: FskModParams)
        ensures
            r@ == fsk_with_fdev(self@, fdev@),
    {
        proof {
            use_type_invariant(&self);
        }
        let mut buf = self.buf;
        let (hi, mid, lo) = split_be24(fdev.into_bits());
        buf[6] = hi;
        buf[7] = mid;
        buf[8] = lo;
        FskModParams { buf }
    }

    /// Returns the bytes of the command, in the order of transmission.
    pub fn as_slice(&self) -> (r: &[u8])
        ensures
            r@ == self@,
            r@.len() == 9,
            r@[0] == SET_MODULATION_PARAMS,
    {
        proof {
            use_type_invariant(self);
        }
        &self.buf
    }
}

/// Two commands are equal where their bytes are.
impl PartialEq for FskModParams {
    fn eq(&self, other: &Self) -> (r: bool) {
        same_bytes(&self.buf, &other.buf)
    }
}

impl PartialEqSpecImpl for FskModParams {
    open spec fn obeys_eq_spec() -> bool {
        true
    }

    open spec fn eq_spec(&self, other: &Self) -> bool {
        self@ == other@
    }
}

impl Default for FskModParams {
    fn default() -> (r: Self)
        ensures
            r@ == fsk_layout(
                bitrate_bits(50_000),
                FskPulseShape::NoFilter,
                FskBandwidth::Bw58,
                fdev_bits(25_000),
            ),
    {
        Self::new()
    }
}

/// Setters of different fields commute: whichever of two is applied first,
/// the command is the same.
pub proof fn lemma_fsk_setters_commute(
    p: FskModParams,
    bitrate: nat,
    shape: FskPulseShape,
    bw: FskBandwidth,
    fdev: nat,
)
    ensures
        fsk_with_pulse_shape(fsk_with_bitrate(p@, bitrate), shape) == fsk_with_bitrate(
            fsk_with_pulse_shape(p@, shape),
            bitrate,
        ),
        fsk_with_bandwidth(fsk_with_bitrate(p@, bitrate), bw) == fsk_with_bitrate(
            fsk_with_bandwidth(p@, bw),
            bitrate,
        ),
        fsk_with_fdev(fsk_with_bitrate(p@, bitrate), fdev) == fsk_with_bitrate(
            fsk_with_fdev(p@, fdev),
            bitrate,
        ),
        fsk_with_bandwidth(fsk_with_pulse_shape(p@, shape), bw) == fsk_with_pulse_shape(
            fsk_with_bandwidth(p@, bw),
            shape,
        ),
        fsk_with_fdev(fsk_with_pulse_shape(p@, shape), fdev) == fsk_with_pulse_shape(
            fsk_with_fdev(p@, fdev),
            shape,
        ),
        fsk_with_fdev(fsk_with_bandwidth(p@, bw), fdev) == fsk_with_bandwidth(
            fsk_with_fdev(p@, fdev),
            bw,
        ),
{
    assert(p@.len() == 9);
    assert(fsk_with_pulse_shape(fsk_with_bitrate(p@, bitrate), shape) =~= fsk_with_bitrate(
        fsk_with_pulse_shape(p@, shape),
        bitrate,
    ));
    assert(fsk_with_bandwidth(fsk_with_bitrate(p@, bitrate), bw) =~= fsk_with_bitrate(
        fsk_with_bandwidth(p@, bw),
        bitrate,
    ));
    assert(fsk_with_fdev(fsk_with_bitrate(p@, bitrate), fdev) =~= fsk_with_bitrate(
        fsk_with_fdev(p@, fdev),
        bitrate,
    ));
    assert(fsk_with_bandwidth(fsk_with_pulse_shape(p@, shape), bw) =~= fsk_with_pulse_shape(
        fsk_with_bandwidth(p@, bw),
        shape,
    ));
    assert(fsk_with_fdev(fsk_with_pulse_shape(p@, shape), fdev) =~= fsk_with_pulse_shape(
        fsk_with_fdev(p@, fdev),
        shape,
    ));
    assert(fsk_with_fdev(fsk_with_bandwidth(p@, bw), fdev) =~= fsk_with_bandwidth(
        fsk_with_fdev(p@, fdev),
        bw,
    ));
}

/// Once every field of a command has been set, the command is the layout of
/// the four values, whatever it held before.
pub proof fn lemma_fsk_setters_fill_layout(
    p: FskModParams,
    bitrate: nat,
    shape: FskPulseShape,
    bw: FskBandwidth,
    fdev: nat,
)
    requires
        p@[0] == SET_MODULATION_PARAMS,
    ensures
        fsk_with_fdev(
            fsk_with_bandwidth(fsk_with_pulse_shape(fsk_with_bitrate(p@, bitrate), shape), bw),
            fdev,
        ) == fsk_layout(bitrate, shape, bw, fdev),
{
    assert(p@.len() == 9);
    assert(fsk_with_fdev(
        fsk_with_bandwidth(fsk_with_pulse_shape(fsk_with_bitrate(p@, bitrate), shape), bw),
        fdev,
    ) =~= fsk_layout(bitrate, shape, bw, fdev));
}

/// The byte of the low-data-rate optimisation flag.
pub open spec fn ldro_byte(en: bool) -> u8 {
    if en {
        1
    } else {
        0
    }
}

/// The LoRa command with the given field values: the operation code, the
/// spreading factor, the bandwidth, the coding rate and the flag of the
/// low-data-rate optimisation.
pub open spec fn lora_layout(
    sf: SpreadingFactor,
    bw: LoRaBandwidth,
    cr: CodingRate,
    ldro_en: bool,
) -> Seq<u8> {
    seq![SET_MODULATION_PARAMS, sf.raw(), bw.raw(), cr.raw(), ldro_byte(ldro_en)]
}

/// A LoRa command with its spreading factor replaced.
pub open spec fn lora_with_sf(buf: Seq<u8>, sf: SpreadingFactor) -> Seq<u8> {
    buf.update(1, sf.raw())
}

/// A LoRa command with its bandwidth replaced.
pub open spec fn lora_with_bw(buf: Seq<u8>, bw: LoRaBandwidth) -> Seq<u8> {
    buf.update(2, bw.raw())
}

/// A LoRa command with its coding rate replaced.
pub open spec fn lora_with_cr(buf: Seq<u8>, cr: CodingRate) -> Seq<u8> {
    buf.update(3, cr.raw())
}

/// A LoRa command with the flag of its low-data-rate optimisation replaced.
pub open spec fn lora_with_ldro_en(buf: Seq<u8>, en: bool) -> Seq<u8> {
    buf.update(4, ldro_byte(en))
}

/// LoRa modulation parameters: a command of five bytes.
#[derive(Debug, Eq, Clone, Copy)]
pub struct LoRaModParams {
    buf: [u8; 5],
}

impl View for LoRaModParams {
    type V = Seq<u8>;

    /// The bytes of the command, in the order of transmission.
    closed spec fn view(&self) -> Seq<u8> {
        self.buf@
    }
}

impl LoRaModParams {
    #[verifier::type_invariant]
    spec fn starts_with_op_code(self) -> bool {
        self.buf@[0] == SET_MODULATION_PARAMS
    }

    /// Creates the command with spreading factor 5, the narrowest bandwidth,
    /// no forward error correction and no low-data-rate optimisation.
    pub fn new() -> (r: LoRaModParams)
        ensures
            r@ == lora_layout(
                SpreadingFactor::Sf5,
                LoRaBandwidth::Bw7,
                CodingRate::Cr44,
                false,
            ),
    {
        let r = LoRaModParams { buf: [SET_MODULATION_PARAMS, 0x05, 0x00, 0x00, 0x00] };
        assert(r@ =~= lora_layout(
            SpreadingFactor::Sf5,
            LoRaBandwidth::Bw7,
            CodingRate::Cr44,
            false,
        ));
        r
    }

    /// Sets the spreading factor: byte 1.
    #[must_use]
    pub fn set_sf(self, sf: SpreadingFactor) -> (r: Self)
        ensures
            r@ == lora_with_sf(self@, sf),
    {
        proof {
            use_type_invariant(&self);
        }
        let mut buf = self.buf;
        buf[1] = sf.into_raw();
        LoRaModParams { buf }
    }

    /// Sets the bandwidth: byte 2.
    #[must_use]
    pub fn set_bw(self, bw: LoRaBandwidth) -> (r: Self)
        ensures
            r@ == lora_with_bw(self@, bw),
    {
        proof {
            use_type_invariant(&self);
        }
        let mut buf = self.buf;
        buf[2] = bw.into_raw();
        LoRaModParams { buf }
    }

    /// Sets the forward error correction coding rate: byte 3.
    #[must_use]
    pub fn set_cr(self, cr: CodingRate) -> (r: Self)
        ensures
            r@ == lora_with_cr(self@, cr),
    {
        proof {
            use_type_invariant(&self);
        }
        let mut buf = self.buf;
        buf[3] = cr.into_raw();
        LoRaModParams { buf }
    }

    /// Switches the low-data-rate optimisation on or off: byte 4, one or
    /// zero.
    #[must_use]
    pub fn set_ldro_en(self, en: bool) -> (r: Self)
        ensures
            r@ == lora_with_ldro_en(self@, en),
    {
        proof {
            use_type_invariant(&self);
        }
        let mut buf = self.buf;
        buf[4] = if en {
            1
        } else {
            0
        };
        LoRaModParams { buf }
    }

    /// Returns the bytes of the command, in the order of transmission.
    pub fn as_slice(&self) -> (r: &[u8])
        ensures
            r@ == self@,
            r@.len() == 5,
            r@[0] == SET_MODULATION_PARAMS,
    {
        proof {
            use_type_invariant(self);
        }
        &self.buf
    }
}

/// Two commands are equal where their bytes are.
impl PartialEq for LoRaModParams {
    fn eq(&self, other: &Self) -> (r: bool) {
        same_bytes(&self.buf, &other.buf)
    }
}

impl PartialEqSpecImpl for LoRaModParams {
    open spec fn obeys_eq_spec() -> bool {
        true
    }

    open spec fn eq_spec(&self, other: &Self) -> bool {
        self@ == other@
    }
}

impl Default for LoRaModParams {
    fn default() -> (r: Self)
        ensures
            r@ == lora_layout(
                SpreadingFactor::Sf5,
                LoRaBandwidth::Bw7,
                CodingRate::Cr44,
                false,
            ),
    {
        Self::new()
    }
}

/// Setters of different fields commute: whichever of two is applied first,
/// the command is the same.
pub proof fn lemma_lora_setters_commute(
    p: LoRaModParams,
    sf: SpreadingFactor,
    bw: LoRaBandwidth,
    cr: CodingRate,
    en: bool,
)
    ensures
        lora_with_bw(lora_with_sf(p@, sf), bw) == lora_with_sf(lora_with_bw(p@, bw), sf),
        lora_with_cr(lora_with_sf(p@, sf), cr) == lora_with_sf(lora_with_cr(p@, cr), sf),
        lora_with_ldro_en(lora_with_sf(p@, sf), en) == lora_with_sf(lora_with_ldro_en(p@, en), sf),
        lora_with_cr(lora_with_bw(p@, bw), cr) == lora_with_bw(lora_with_cr(p@, cr), bw),
        lora_with_ldro_en(lora_with_bw(p@, bw), en) == lora_with_bw(lora_with_ldro_en(p@, en), bw),
        lora_with_ldro_en(lora_with_cr(p@, cr), en) == lora_with_cr(lora_with_ldro_en(p@, en), cr),
{
    assert(p@.len() == 5);
    assert(lora_with_bw(lora_with_sf(p@, sf), bw) =~= lora_with_sf(lora_with_bw(p@, bw), sf));
    assert(lora_with_cr(lora_with_sf(p@, sf), cr) =~= lora_with_sf(lora_with_cr(p@, cr), sf));
    assert(lora_with_ldro_en(lora_with_sf(p@, sf), en) =~= lora_with_sf(
        lora_with_ldro_en(p@, en),
        sf,
    ));
    assert(lora_with_cr(lora_with_bw(p@, bw), cr) =~= lora_with_bw(lora_with_cr(p@, cr), bw));
    assert(lora_with_ldro_en(lora_with_bw(p@, bw), en) =~= lora_with_bw(
        lora_with_ldro_en(p@, en),
        bw,
    ));
    assert(lora_with_ldro_en(lora_with_cr(p@, cr), en) =~= lora_with_cr(
        lora_with_ldro_en(p@, en),
        cr,
    ));
}

/// Once every field of a command has been set, the command is the layout of
/// the four values, whatever it held before.
pub proof fn lemma_lora_setters_fill_layout(
    p: LoRaModParams,
    sf: SpreadingFactor,
    bw: LoRaBandwidth,
    cr: CodingRate,
    en: bool,
)
    requires
        p@[0] == SET_MODULATION_PARAMS,
    ensures
        lora_with_ldro_en(lora_with_cr(lora_with_bw(lora_with_sf(p@, sf), bw), cr), en)
            == lora_layout(sf, bw, cr, en),
{
    assert(p@.len() == 5);
    assert(lora_with_ldro_en(lora_with_cr(lora_with_bw(lora_with_sf(p@, sf), bw), cr), en)
        =~= lora_layout(sf, bw, cr, en));
}

/// The byte of the one pulse shape that BPSK allows, Gaussian BT 0.5.
pub const BPSK_PULSE_SHAPE: u8 = 0x16;

/// The BPSK command with the given bitrate: the operation code, the bitrate
/// and the byte of the fixed pulse shape.
pub open spec fn bpsk_layout(bitrate: nat) -> Seq<u8> {
    seq![SET_MODULATION_PARAMS] + be24(bitrate) + seq![BPSK_PULSE_SHAPE]
}

/// A BPSK command with its bitrate field replaced.
pub open spec fn bpsk_with_bitrate(buf: Seq<u8>, bits: nat) -> Seq<u8> {
    with_be24(buf, 1, bits)
}

/// BPSK modulation parameters: a command of five bytes.
///
/// The pulse shape cannot be set: only one is valid, and every command
/// carries it.
#[derive(Debug, Eq, Clone, Copy)]
pub struct BpskModParams {
    buf: [u8; 5],
}

impl View for BpskModParams {
    type V = Seq<u8>;

    /// The bytes of the command, in the order of transmission.
    closed spec fn view(&self) -> Seq<u8> {
        self.buf@
    }
}

impl BpskModParams {
    #[verifier::type_invariant]
    spec fn frames_bitrate(self) -> bool {
        &&& self.buf@[0] == SET_MODULATION_PARAMS
        &&& self.buf@[4] == BPSK_PULSE_SHAPE
    }

    /// Creates the command with a bitrate of 600 bits per second.
    pub fn new() -> (r: BpskModParams)
        ensures
            r@ == bpsk_layout(bitrate_bits(600)),
            r@ == seq![0x8Bu8, 0x1A, 0x0A, 0xAA, 0x16],
    {
        let r = BpskModParams { buf: [SET_MODULATION_PARAMS, 0x1A, 0x0A, 0xAA, BPSK_PULSE_SHAPE] };
        proof {
            assert(bitrate_bits(600) == 0x1A_0AAA) by (nonlinear_arith);
            assert(r@ =~= bpsk_layout(bitrate_bits(600)));
            assert(r@ =~= seq![0x8Bu8, 0x1A, 0x0A, 0xAA, 0x16]);
        }
        r
    }

    /// Sets the bitrate: bytes 1 to 3, most significant first.
    #[must_use]
    pub fn set_bitrate(self, bitrate: FskBitrate) -> (r: BpskModParams)
        ensures
            r@ == bpsk_with_bitrate(self@, bitrate@),
            r@ == bpsk_layout(bitrate@),
    {
        proof {
            use_type_invariant(&self);
        }
        let mut buf = self.buf;
        let (hi, mid, lo) = split_be24(bitrate.into_bits());
        buf[1] = hi;
        buf[2] = mid;
        buf[3] = lo;
        let r = BpskModParams { buf };
        assert(r@ =~= bpsk_layout(bitrate@));
        r
    }

    /// Returns the bytes of the command, in the order of transmission.
    pub fn as_slice(&self) -> (r: &[u8])
        ensures
            r@ == self@,
            r@.len() == 5,
            r@[0] == SET_MODULATION_PARAMS,
            r@[4] == BPSK_PULSE_SHAPE,
    {
        proof {
            use_type_invariant(self);
        }
        &self.buf
    }
}

/// Two commands are equal where their bytes are.
impl PartialEq for BpskModParams {
    fn eq(&self, other: &Self) -> (r: bool) {
        same_bytes(&self.buf, &other.buf)
    }
}

impl PartialEqSpecImpl for BpskModParams {
    open spec fn obeys_eq_spec() -> bool {
        true
    }

    open spec fn eq_spec(&self, other: &Self) -> bool {
        self@ == other@
    }
}

impl Default for BpskModParams {
    fn default() -> (r: Self)
        ensures
            r@ == bpsk_layout(bitrate_bits(600)),
    {
        Self::new()
    }
}

} // verus!
