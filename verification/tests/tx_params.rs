use core::cmp::Ordering;
use core::time::Duration;
use subghz::op_code::SET_TX_PARAMS;
use subghz::{RampTime, TxParams};

const RAMP_TIMES: [RampTime; 8] = [
    RampTime::Micros10,
    RampTime::Micros20,
    RampTime::Micros40,
    RampTime::Micros80,
    RampTime::Micros200,
    RampTime::Micros800,
    RampTime::Micros1700,
    RampTime::Micros3400,
];

#[test]
fn ramp_time_raw_bytes() {
    for (i, rt) in RAMP_TIMES.into_iter().enumerate() {
        assert_eq!(usize::from(rt.into_raw()), i);
        assert_eq!(usize::from(u8::from(rt)), i);
    }
    assert_eq!(u8::from(RampTime::Micros10), 0x00);
    assert_eq!(u8::from(RampTime::Micros3400), 0x07);
}

#[test]
fn ramp_time_microseconds() {
    let expected: [u64; 8] = [10, 20, 40, 80, 200, 800, 1700, 3400];
    for (i, rt) in RAMP_TIMES.into_iter().enumerate() {
        assert_eq!(rt.as_micros(), expected[i]);
    }
}

#[test]
fn ramp_time_durations() {
    assert_eq!(Duration::from(RampTime::Micros10), Duration::from_micros(10));
    assert_eq!(Duration::from(RampTime::Micros20), Duration::from_micros(20));
    assert_eq!(Duration::from(RampTime::Micros40), Duration::from_micros(40));
    assert_eq!(Duration::from(RampTime::Micros80), Duration::from_micros(80));
    assert_eq!(Duration::from(RampTime::Micros200), Duration::from_micros(200));
    assert_eq!(Duration::from(RampTime::Micros800), Duration::from_micros(800));
    assert_eq!(Duration::from(RampTime::Micros1700), Duration::from_micros(1700));
    assert_eq!(Duration::from(RampTime::Micros3400), Duration::from_micros(3400));
    assert_eq!(Duration::from(RampTime::Micros1700).as_nanos(), 1_700_000);
    assert_eq!(Duration::from(RampTime::Micros3400), Duration::from_nanos(3_400_000));
}

#[test]
fn ramp_time_order_agrees_with_time_for_every_pair() {
    for a in RAMP_TIMES {
        for b in RAMP_TIMES {
            let expected = a.as_micros().cmp(&b.as_micros());
            assert_eq!(a.partial_cmp(&b), Some(expected));
            assert_eq!(a.cmp(&b), expected);
            assert_eq!(a == b, expected == Ordering::Equal);
        }
    }
    assert!(RampTime::Micros10 < RampTime::Micros3400);
}

#[test]
fn tx_params_new_is_default() {
    assert_eq!(TxParams::new(), TxParams::default());
    assert_eq!(TxParams::new().as_slice(), &[0x8E, 0x00, 0x00]);
    assert_eq!(SET_TX_PARAMS, 0x8E);
}

#[test]
fn tx_params_set_power() {
    let tx = TxParams::new().set_power(0x00);
    assert_eq!(tx.as_slice()[1], 0x00);
    let tx = TxParams::new().set_power(0xEF);
    assert_eq!(tx.as_slice(), &[0x8E, 0xEF, 0x00]);
    let tx = TxParams::new().set_power(0xFF);
    assert_eq!(tx.as_slice(), &[0x8E, 0xFF, 0x00]);
}

#[test]
fn tx_params_set_ramp_time() {
    let tx = TxParams::new().set_ramp_time(RampTime::Micros200);
    assert_eq!(tx.as_slice()[2], 0x04);
    assert_eq!(tx.as_slice(), &[0x8E, 0x00, 0x04]);
}

#[test]
fn tx_params_as_slice() {
    let tx = TxParams::new()
        .set_ramp_time(RampTime::Micros80)
        .set_power(0x0E);
    assert_eq!(tx.as_slice(), &[0x8E, 0x0E, 0x03]);
}

#[test]
fn tx_params_setters_commute() {
    for rt in RAMP_TIMES {
        for power in [0x00u8, 0x0E, 0x16, 0xEF, 0xF7, 0xFF] {
            let one = TxParams::new().set_power(power).set_ramp_time(rt);
            let other = TxParams::new().set_ramp_time(rt).set_power(power);
            assert_eq!(one, other);
            assert_eq!(one.as_slice(), &[0x8E, power, rt.into_raw()]);
        }
    }
}

#[test]
fn tx_params_last_setting_of_a_field_stays() {
    let tx = TxParams::new()
        .set_power(0x16)
        .set_ramp_time(RampTime::Micros3400)
        .set_power(0x0E)
        .set_ramp_time(RampTime::Micros20);
    assert_eq!(tx.as_slice(), &[0x8E, 0x0E, 0x01]);
    assert_ne!(tx, TxParams::new());
}
