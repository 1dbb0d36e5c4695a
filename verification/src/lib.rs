//! Parameter encoding for the command interface of a sub-GHz radio
//! transceiver.
//!
//! Engineering-unit settings (bitrate, frequency deviation, bandwidth,
//! spreading factor, coding rate, output power, ramp time) are turned into
//! the exact command bytes that the transceiver expects. Every function is a
//! pure value transformation: nothing here talks to a bus.
pub mod bytes;
pub mod catalog;
pub mod fallback_mode;
pub mod lora_sync_word;
pub mod mod_params;
pub mod op_code;
pub mod order;
pub mod tx_params;
pub mod units;

pub use catalog::{CodingRate, FskBandwidth, FskPulseShape, LoRaBandwidth, SpreadingFactor};
pub use fallback_mode::FallbackMode;
pub use lora_sync_word::LoRaSyncWord;
pub use mod_params::{BpskModParams, FskModParams, LoRaModParams};
pub use tx_params::{RampTime, TxParams};
pub use units::{FskBitrate, FskFdev};
