//! MLX90614 register map and configuration register.
use vstd::prelude::*;
pub use crate::config::{Config, Fir, Gain, Iir, PwmMode};

verus! {

/// MLX90614 command codes of the registers (RAM 0x00 | n, EEPROM 0x20 | n)
pub struct Register;

impl Register {
    pub const RAW_IR1: u8 = 0x04;
    pub const RAW_IR2: u8 = 0x05;
    pub const TA: u8 = 0x06;
    pub const TOBJ1: u8 = 0x07;
    pub const TOBJ2: u8 = 0x08;
    pub const EMISSIVITY: u8 = 0x24;
    pub const CONFIG_1: u8 = 0x25;
    pub const ADDRESS: u8 = 0x2E;
    pub const ID0: u8 = 0x3C;
}

/// Command that sends the device to sleep
pub const SLEEP_COMMAND: u8 = 0xFF;

/// Factory default slave address
pub const DEV_ADDR: u8 = 0x5A;

/// How long the data line is held low to wake the device
pub const WAKE_DELAY_MS: u8 = 33;

} // verus!
