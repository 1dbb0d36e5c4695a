use subghz::mod_params::BPSK_PULSE_SHAPE;
use subghz::op_code::SET_MODULATION_PARAMS;
use subghz::{
    BpskModParams, CodingRate, FskBandwidth, FskBitrate, FskFdev, FskModParams, FskPulseShape,
    LoRaBandwidth, LoRaModParams, SpreadingFactor,
};

#[test]
fn fsk_new_holds_the_recommended_settings() {
    assert_eq!(SET_MODULATION_PARAMS, 0x8B);
    assert_eq!(
        FskModParams::new().as_slice(),
        &[0x8B, 0x00, 0x50, 0x00, 0x00, 0x0C, 0x00, 0x66, 0x66]
    );
    assert_eq!(FskModParams::new(), FskModParams::default());
    let by_hand = FskModParams::new()
        .set_bitrate(FskBitrate::from_bps(50_000))
        .set_pulse_shape(FskPulseShape::NoFilter)
        .set_bandwidth(FskBandwidth::Bw58)
        .set_fdev(FskFdev::from_hertz(25_000));
    assert_eq!(by_hand, FskModParams::new());
}

#[test]
fn fsk_set_bitrate() {
    let params = FskModParams::new().set_bitrate(FskBitrate::from_bps(32_000));
    assert_eq!(params.as_slice()[1], 0x00);
    assert_eq!(params.as_slice()[2], 0x7D);
    assert_eq!(params.as_slice()[3], 0x00);
    let params = FskModParams::new().set_bitrate(FskBitrate::from_raw(0x12_3456));
    assert_eq!(
        params.as_slice(),
        &[0x8B, 0x12, 0x34, 0x56, 0x00, 0x0C, 0x00, 0x66, 0x66]
    );
    let params = FskModParams::new().set_bitrate(FskBitrate::from_bps(0));
    assert_eq!(
        params.as_slice(),
        &[0x8B, 0xFF, 0xFF, 0xFF, 0x00, 0x0C, 0x00, 0x66, 0x66]
    );
}

#[test]
fn fsk_set_pulse_shape() {
    let params = FskModParams::new().set_pulse_shape(FskPulseShape::Bt03);
    assert_eq!(params.as_slice()[4], 0x08);
    assert_eq!(
        params.as_slice(),
        &[0x8B, 0x00, 0x50, 0x00, 0x08, 0x0C, 0x00, 0x66, 0x66]
    );
}

#[test]
fn fsk_set_bandwidth() {
    let params = FskModParams::new().set_bandwidth(FskBandwidth::Bw9);
    assert_eq!(params.as_slice()[5], 0x1E);
    assert_eq!(
        params.as_slice(),
        &[0x8B, 0x00, 0x50, 0x00, 0x00, 0x1E, 0x00, 0x66, 0x66]
    );
}

#[test]
fn fsk_set_fdev() {
    let params = FskModParams::new().set_fdev(FskFdev::from_hertz(31_250));
    assert_eq!(params.as_slice()[6], 0x00);
    assert_eq!(params.as_slice()[7], 0x80);
    assert_eq!(params.as_slice()[8], 0x00);
    let params = FskModParams::new().set_fdev(FskFdev::from_raw(0xAB_CDEF));
    assert_eq!(
        params.as_slice(),
        &[0x8B, 0x00, 0x50, 0x00, 0x00, 0x0C, 0xAB, 0xCD, 0xEF]
    );
}

#[test]
fn fsk_as_slice() {
    let params = FskModParams::new()
        .set_bitrate(FskBitrate::from_bps(32_000))
        .set_pulse_shape(FskPulseShape::Bt03)
        .set_bandwidth(FskBandwidth::Bw9)
        .set_fdev(FskFdev::from_hertz(31_250));
    assert_eq!(
        params.as_slice(),
        &[0x8B, 0x00, 0x7D, 0x00, 0x08, 0x1E, 0x00, 0x80, 0x00]
    );
    assert_eq!(params.as_slice().len(), 9);
}

#[test]
fn fsk_setters_commute() {
    let bitrate = FskBitrate::from_bps(9_600);
    let shape = FskPulseShape::Bt05;
    let bw = FskBandwidth::Bw467;
    let fdev = FskFdev::from_hertz(5_000);
    let base = FskModParams::new();
    assert_eq!(
        base.set_bandwidth(bw).set_bitrate(bitrate),
        base.set_bitrate(bitrate).set_bandwidth(bw)
    );
    assert_eq!(
        base.set_pulse_shape(shape).set_bitrate(bitrate),
        base.set_bitrate(bitrate).set_pulse_shape(shape)
    );
    assert_eq!(
        base.set_fdev(fdev).set_bitrate(bitrate),
        base.set_bitrate(bitrate).set_fdev(fdev)
    );
    assert_eq!(
        base.set_bandwidth(bw).set_pulse_shape(shape),
        base.set_pulse_shape(shape).set_bandwidth(bw)
    );
    assert_eq!(
        base.set_fdev(fdev).set_pulse_shape(shape),
        base.set_pulse_shape(shape).set_fdev(fdev)
    );
    assert_eq!(
        base.set_fdev(fdev).set_bandwidth(bw),
        base.set_bandwidth(bw).set_fdev(fdev)
    );
    let forward = base
        .set_bitrate(bitrate)
        .set_pulse_shape(shape)
        .set_bandwidth(bw)
        .set_fdev(fdev);
    let backward = base
        .set_fdev(fdev)
        .set_bandwidth(bw)
        .set_pulse_shape(shape)
        .set_bitrate(bitrate);
    assert_eq!(forward, backward);
    // 1_024_000_000 / 9600 = 106_666 = 0x01A0AA; 5000 * 2^25 / 32_000_000 = 5242 = 0x147A
    assert_eq!(
        forward.as_slice(),
        &[0x8B, 0x01, 0xA0, 0xAA, 0x09, 0x09, 0x00, 0x14, 0x7A]
    );
}

#[test]
fn fsk_partial_templates_stay_unchanged() {
    let template = FskModParams::new().set_bandwidth(FskBandwidth::Bw117);
    let slow = template.set_bitrate(FskBitrate::from_bps(1_000));
    let fast = template.set_bitrate(FskBitrate::from_bps(100_000));
    assert_ne!(slow, fast);
    assert_eq!(
        template.as_slice(),
        &[0x8B, 0x00, 0x50, 0x00, 0x00, 0x0B, 0x00, 0x66, 0x66]
    );
    // 1_024_000_000 / 1000 = 1_024_000 = 0x0FA000
    assert_eq!(
        slow.as_slice(),
        &[0x8B, 0x0F, 0xA0, 0x00, 0x00, 0x0B, 0x00, 0x66, 0x66]
    );
    // 1_024_000_000 / 100_000 = 10_240 = 0x002800
    assert_eq!(
        fast.as_slice(),
        &[0x8B, 0x00, 0x28, 0x00, 0x00, 0x0B, 0x00, 0x66, 0x66]
    );
}

#[test]
fn lora_new_is_default() {
    assert_eq!(LoRaModParams::new(), LoRaModParams::default());
    assert_eq!(LoRaModParams::new().as_slice(), &[0x8B, 0x05, 0x00, 0x00, 0x00]);
}

#[test]
fn lora_set_sf() {
    let params = LoRaModParams::new().set_sf(SpreadingFactor::Sf7);
    assert_eq!(params.as_slice(), &[0x8B, 0x07, 0x00, 0x00, 0x00]);
    let params = LoRaModParams::new().set_sf(SpreadingFactor::Sf11);
    assert_eq!(params.as_slice(), &[0x8B, 0xB0, 0x00, 0x00, 0x00]);
}

#[test]
fn lora_set_bw() {
    let params = LoRaModParams::new().set_bw(LoRaBandwidth::Bw125);
    assert_eq!(params.as_slice(), &[0x8B, 0x05, 0x04, 0x00, 0x00]);
}

#[test]
fn lora_set_cr() {
    let params = LoRaModParams::new().set_cr(CodingRate::Cr45);
    assert_eq!(params.as_slice(), &[0x8B, 0x05, 0x00, 0x01, 0x00]);
}

#[test]
fn lora_set_ldro_en() {
    let params = LoRaModParams::new().set_ldro_en(true);
    assert_eq!(params.as_slice(), &[0x8B, 0x05, 0x00, 0x00, 0x01]);
    let params = params.set_ldro_en(false);
    assert_eq!(params.as_slice(), &[0x8B, 0x05, 0x00, 0x00, 0x00]);
}

#[test]
fn lora_as_slice() {
    let params = LoRaModParams::new()
        .set_sf(SpreadingFactor::Sf7)
        .set_bw(LoRaBandwidth::Bw125)
        .set_cr(CodingRate::Cr45)
        .set_ldro_en(false);
    assert_eq!(params.as_slice(), &[0x8B, 0x07, 0x04, 0x01, 0x00]);
    assert_eq!(params.as_slice().len(), 5);
}

#[test]
fn lora_setters_commute() {
    let sf = SpreadingFactor::Sf12;
    let bw = LoRaBandwidth::Bw41;
    let cr = CodingRate::Cr48;
    let base = LoRaModParams::new();
    assert_eq!(base.set_bw(bw).set_sf(sf), base.set_sf(sf).set_bw(bw));
    assert_eq!(base.set_cr(cr).set_sf(sf), base.set_sf(sf).set_cr(cr));
    assert_eq!(
        base.set_ldro_en(true).set_sf(sf),
        base.set_sf(sf).set_ldro_en(true)
    );
    assert_eq!(base.set_cr(cr).set_bw(bw), base.set_bw(bw).set_cr(cr));
    assert_eq!(
        base.set_ldro_en(true).set_bw(bw),
        base.set_bw(bw).set_ldro_en(true)
    );
    assert_eq!(
        base.set_ldro_en(true).set_cr(cr),
        base.set_cr(cr).set_ldro_en(true)
    );
    let forward = base.set_sf(sf).set_bw(bw).set_cr(cr).set_ldro_en(true);
    let backward = base.set_ldro_en(true).set_cr(cr).set_bw(bw).set_sf(sf);
    assert_eq!(forward, backward);
    assert_eq!(forward.as_slice(), &[0x8B, 0xC0, 0x0A, 0x04, 0x01]);
}

#[test]
fn bpsk_new_is_default() {
    assert_eq!(BpskModParams::new(), BpskModParams::default());
    assert_eq!(BpskModParams::new().as_slice(), &[0x8B, 0x1A, 0x0A, 0xAA, 0x16]);
    assert_eq!(BPSK_PULSE_SHAPE, 0x16);
}

#[test]
fn bpsk_set_bitrate() {
    let params = BpskModParams::new().set_bitrate(FskBitrate::from_bps(600));
    assert_eq!(params.as_slice()[1], 0x1A);
    assert_eq!(params.as_slice()[2], 0x0A);
    assert_eq!(params.as_slice()[3], 0xAA);
    assert_eq!(params, BpskModParams::new());
}

#[test]
fn bpsk_as_slice() {
    let params = BpskModParams::new().set_bitrate(FskBitrate::from_bps(100));
    assert_eq!(params.as_slice(), [0x8B, 0x9C, 0x40, 0x00, 0x16]);
    assert_eq!(params.as_slice().len(), 5);
    assert_ne!(params, BpskModParams::new());
}

#[test]
fn bpsk_keeps_its_pulse_shape() {
    for raw in [0u32, 1, 0x12_3456, 0x00FF_FFFF, u32::MAX] {
        let params = BpskModParams::new().set_bitrate(FskBitrate::from_raw(raw));
        assert_eq!(params.as_slice()[0], 0x8B);
        assert_eq!(params.as_slice()[4], 0x16);
    }
    let params = BpskModParams::new().set_bitrate(FskBitrate::from_raw(0xAB12_3456));
    assert_eq!(params.as_slice(), &[0x8B, 0x12, 0x34, 0x56, 0x16]);
}
