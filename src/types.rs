//! Errors, bus addresses and temperature readings.
use vstd::prelude::*;

verus! {

/// All possible errors in this crate
#[derive(Debug, Clone, Copy, PartialEq, Eq)]
pub enum Error<E> {
    /// I²C bus error
    I2C(E),
    /// CRC checksum mismatch (PEC)
    ChecksumMismatch,
    /// Invalid input data
    InvalidInputData,
    /// The EEPROM cell did not take the value written to it
    BadEepromWrite,
    /// The sensor flagged its reading as invalid; the remaining 15 bits are attached
    BadRead(Temperature),
}

/// Possible slave addresses
#[derive(Debug, Clone, Copy, PartialEq, Eq, Structural)]
pub enum SlaveAddr {
    /// Default slave address
    Default,
    /// Alternative slave address
    Alternative(u8),
}

impl Default for SlaveAddr {
    /// Default slave address
    fn default() -> (r: Self)
        ensures
            r == SlaveAddr::Default,
    {
        SlaveAddr::Default
    }
}

/// Whether `a` can address a device: a non-zero 7-bit value.
pub open spec fn is_valid_address(a: u8) -> bool {
    1 <= a && a <= 0x7f
}

/// The address that `address` selects, given the IC's factory default.
pub open spec fn resolve_address(address: SlaveAddr, default: u8) -> Option<u8> {
    match address {
        SlaveAddr::Default => Some(default),
        SlaveAddr::Alternative(a) => if is_valid_address(a) {
            Some(a)
        } else {
            None
        },
    }
}

/// A temperature reading in units of 0.02 K.
///
/// Only a decoded register produces one, and its value always fits in 15 bits.
#[derive(Debug, Clone, Copy, PartialEq, Eq)]
pub struct Temperature {
    raw: u16,
}

impl View for Temperature {
    type V = nat;

    closed spec fn view(&self) -> nat {
        self.raw as nat
    }
}

/// Millikelvin of a raw reading.
pub open spec fn millikelvin_of(raw: nat) -> int {
    raw as int * 20
}

/// Millidegrees Celsius of a raw reading.
pub open spec fn millicelsius_of(raw: nat) -> int {
    millikelvin_of(raw) - 273150
}

/// Millidegrees Fahrenheit of a raw reading, the division truncating.
pub open spec fn millifahrenheit_of(raw: nat) -> int {
    millikelvin_of(raw) * 9 / 5 - 459670
}

impl Temperature {
    #[verifier::type_invariant]
    spec fn fits(self) -> bool {
        self.raw <= 0x7fff
    }

    /// The reading of a register word with the fault bit clear.
    pub(crate) fn from_raw(raw: u16) -> (r: Temperature)
        requires
            raw <= 0x7fff,
        ensures
            r@ == raw,
    {
        Temperature { raw }
    }

    /// The raw register value
    pub fn raw(&self) -> (r: u16)
        ensures
            r == self@,
            r <= 0x7fff,
    {
        proof {
            use_type_invariant(self);
        }
        self.raw
    }

    /// Temperature in millikelvin
    pub fn millikelvin(&self) -> (r: u32)
        ensures
            r == millikelvin_of(self@),
    {
        proof {
            use_type_invariant(self);
        }
        self.raw as u32 * 20
    }

    /// Temperature in millidegrees Celsius
    pub fn millicelsius(&self) -> (r: i32)
        ensures
            r == millicelsius_of(self@),
    {
        proof {
            use_type_invariant(self);
        }
        self.raw as i32 * 20 - 273150
    }

    /// Temperature in millidegrees Fahrenheit
    pub fn millifahrenheit(&self) -> (r: i32)
        ensures
            r == millifahrenheit_of(self@),
    {
        proof {
            use_type_invariant(self);
        }
        (self.raw as i32 * 20) * 9 / 5 - 459670
    }
}

} // verus!
