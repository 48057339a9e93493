//! MLX90615 register map.
use vstd::prelude::*;

verus! {

/// MLX90615 command codes of the registers (EEPROM 0x10 | n, RAM 0x20 | n)
pub struct Register;

impl Register {
    pub const RAW_IR: u8 = 0x25;
    pub const TA: u8 = 0x26;
    pub const TOBJ: u8 = 0x27;
    pub const EMISSIVITY: u8 = 0x13;
    pub const ADDRESS: u8 = 0x10;
    pub const ID0: u8 = 0x1E;
    pub const ID1: u8 = 0x1F;
}

/// Command that sends the device to sleep
pub const SLEEP_COMMAND: u8 = 0xC6;

/// Factory default slave address
pub const DEV_ADDR: u8 = 0x5B;

/// How long the data line is held low to wake the device
pub const WAKE_DELAY_MS: u8 = 39;

} // verus!
