use subghz::{FallbackMode, LoRaSyncWord};

#[test]
fn default_fallback_mode_is_standby() {
    assert_eq!(FallbackMode::default(), FallbackMode::Standby);
    assert_ne!(FallbackMode::default(), FallbackMode::StandbyHse32);
    assert_ne!(FallbackMode::default(), FallbackMode::Fs);
}

#[test]
fn fallback_mode_raw_bytes() {
    assert_eq!(u8::from(FallbackMode::Standby), 0x20);
    assert_eq!(u8::from(FallbackMode::StandbyHse32), 0x30);
    assert_eq!(u8::from(FallbackMode::Fs), 0x40);
    assert_eq!(FallbackMode::Standby.into_raw(), 0x20);
    assert_eq!(FallbackMode::StandbyHse32.into_raw(), 0x30);
    assert_eq!(FallbackMode::Fs.into_raw(), 0x40);
}

#[test]
fn lora_sync_word_bytes() {
    assert_eq!(LoRaSyncWord::Private.bytes(), [0x14, 0x24]);
    assert_eq!(LoRaSyncWord::Public.bytes(), [0x34, 0x44]);
    assert_ne!(LoRaSyncWord::Private, LoRaSyncWord::Public);
}
