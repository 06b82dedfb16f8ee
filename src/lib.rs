//! Runtime logic of a USB foot pedal: configuration model and flash layout,
//! input mapping, HID report synthesis and the configuration wire protocol.

pub mod config_file;
pub mod flash_image;
pub mod form;
pub mod input;
pub mod keyboard;
pub mod keys;
pub mod model;
pub mod mouse;
pub mod protocol;
pub mod queue;
pub mod store;
pub mod text;

use vstd::prelude::*;

verus! {

/// Where flash is mapped in the address space of the microcontroller.
pub const RP2040_FLASH_OFFSET: usize = 0x10000000;

/// Size of the whole flash: 16 MiB.
pub const RP2040_FLASH_SIZE: usize = 16777216;

/// Offset of the firmware image within flash.
pub const FIRMWARE_OFFSET: usize = 0;

/// Room for the firmware image: 15 MiB.
pub const FIRMWARE_SIZE: usize = 15728640;

/// Offset of the configuration region, right after the firmware.
pub const CONFIG_OFFSET: usize = 15728640;

/// Size of the configuration region: 16 KiB.
pub const CONFIG_SIZE: usize = 16384;

/// Flash is erased in blocks of this many bytes.
pub const FLASH_BLOCK_SIZE: usize = 4096;

/// The configuration region lies within flash, right after the firmware region.
pub fn assert_config_fits_in_flash() -> (r: bool)
    ensures
        r == (FIRMWARE_OFFSET + FIRMWARE_SIZE <= CONFIG_OFFSET && CONFIG_OFFSET + CONFIG_SIZE
            <= RP2040_FLASH_SIZE),
        r,
{
    FIRMWARE_OFFSET + FIRMWARE_SIZE <= CONFIG_OFFSET && CONFIG_OFFSET + CONFIG_SIZE
        <= RP2040_FLASH_SIZE
}

/// The configuration region is a whole number of erase blocks, and starts on one.
pub fn assert_config_size_fits_into_writable_flash_blocks() -> (r: bool)
    ensures
        r == (CONFIG_SIZE % FLASH_BLOCK_SIZE == 0 && CONFIG_OFFSET % FLASH_BLOCK_SIZE == 0),
        r,
{
    CONFIG_SIZE % FLASH_BLOCK_SIZE == 0 && CONFIG_OFFSET % FLASH_BLOCK_SIZE == 0
}

} // verus!
