//! Driver logic for the MLX90614 and MLX90615 infrared thermometers: SMBus
//! framing with packet error codes, the EEPROM write sequence, and the codecs of
//! the temperature and configuration registers.
pub mod checksum;
pub mod config;
pub mod types;
pub mod register_access;
pub mod ic;
pub mod eeprom;
pub mod device;
pub mod mlx90614;
pub mod mlx90615;

pub use device::Mlx9061x;
pub use eeprom::{NvAction, NvEvent, NvState, NvWrite};
pub use ic::IcVariant;
pub use types::{Error, SlaveAddr, Temperature};
