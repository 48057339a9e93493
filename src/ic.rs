//! The two IC variants, described as data.
use vstd::prelude::*;
use crate::mlx90614;
use crate::mlx90615;
use crate::types::is_valid_address;

verus! {

/// Where an IC keeps each register, and which channels it has.
#[derive(Debug, Clone, Copy, PartialEq, Eq, Structural)]
pub struct IcVariant {
    /// Factory default slave address
    pub default_address: u8,
    /// Ambient temperature register
    pub ambient: u8,
    /// First object temperature register
    pub object1: u8,
    /// Second object temperature register, on dual-zone ICs
    pub object2: Option<u8>,
    /// First raw IR channel register
    pub raw_ir1: u8,
    /// Second raw IR channel register, where there is one
    pub raw_ir2: Option<u8>,
    /// Emissivity register (EEPROM)
    pub emissivity: u8,
    /// Configuration register 1 (EEPROM), where it has this layout
    pub config_1: Option<u8>,
    /// Slave address register (EEPROM)
    pub address: u8,
    /// First of the consecutive ID registers
    pub id0: u8,
    /// Number of 16-bit ID registers
    pub id_words: u8,
    /// Command that sends the device to sleep
    pub sleep_command: u8,
}

impl IcVariant {
    /// A default address that can be used and ID registers that fit in the map
    /// and in 64 bits.
    pub open spec fn wf(self) -> bool {
        &&& is_valid_address(self.default_address)
        &&& 1 <= self.id_words <= 4
        &&& self.id0 as int + self.id_words as int <= 256
    }
}

/// The MLX90614 register map.
pub open spec fn mlx90614_map() -> IcVariant {
    IcVariant {
        default_address: mlx90614::DEV_ADDR,
        ambient: mlx90614::Register::TA,
        object1: mlx90614::Register::TOBJ1,
        object2: Some(mlx90614::Register::TOBJ2),
        raw_ir1: mlx90614::Register::RAW_IR1,
        raw_ir2: Some(mlx90614::Register::RAW_IR2),
        emissivity: mlx90614::Register::EMISSIVITY,
        config_1: Some(mlx90614::Register::CONFIG_1),
        address: mlx90614::Register::ADDRESS,
        id0: mlx90614::Register::ID0,
        id_words: 4,
        sleep_command: mlx90614::SLEEP_COMMAND,
    }
}

/// The MLX90615 register map.
pub open spec fn mlx90615_map() -> IcVariant {
    IcVariant {
        default_address: mlx90615::DEV_ADDR,
        ambient: mlx90615::Register::TA,
        object1: mlx90615::Register::TOBJ,
        object2: None,
        raw_ir1: mlx90615::Register::RAW_IR,
        raw_ir2: None,
        emissivity: mlx90615::Register::EMISSIVITY,
        config_1: None,
        address: mlx90615::Register::ADDRESS,
        id0: mlx90615::Register::ID0,
        id_words: 2,
        sleep_command: mlx90615::SLEEP_COMMAND,
    }
}

/// MLX90614 IC marker
pub struct Mlx90614;

/// MLX90615 IC marker
pub struct Mlx90615;

impl Mlx90614 {
    /// The register map of this IC
    pub fn variant() -> (r: IcVariant)
        ensures
            r == mlx90614_map(),
            r.wf(),
    {
        IcVariant {
            default_address: mlx90614::DEV_ADDR,
            ambient: mlx90614::Register::TA,
            object1: mlx90614::Register::TOBJ1,
            object2: Some(mlx90614::Register::TOBJ2),
            raw_ir1: mlx90614::Register::RAW_IR1,
            raw_ir2: Some(mlx90614::Register::RAW_IR2),
            emissivity: mlx90614::Register::EMISSIVITY,
            config_1: Some(mlx90614::Register::CONFIG_1),
            address: mlx90614::Register::ADDRESS,
            id0: mlx90614::Register::ID0,
            id_words: 4,
            sleep_command: mlx90614::SLEEP_COMMAND,
        }
    }
}

impl Mlx90615 {
    /// The register map of this IC
    pub fn variant() -> (r: IcVariant)
        ensures
            r == mlx90615_map(),
            r.wf(),
    {
        IcVariant {
            default_address: mlx90615::DEV_ADDR,
            ambient: mlx90615::Register::TA,
            object1: mlx90615::Register::TOBJ,
            object2: None,
            raw_ir1: mlx90615::Register::RAW_IR,
            raw_ir2: None,
            emissivity: mlx90615::Register::EMISSIVITY,
            config_1: None,
            address: mlx90615::Register::ADDRESS,
            id0: mlx90615::Register::ID0,
            id_words: 2,
            sleep_command: mlx90615::SLEEP_COMMAND,
        }
    }
}

} // verus!
