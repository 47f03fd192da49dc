//! Protocol constants of the eMMC command set and of the EXT_CSD register map.

use vstd::prelude::*;

verus! {

/// SWITCH (CMD6): writes one byte of the EXT_CSD register set.
pub const MMC_SWITCH: u32 = 6;

/// SEND_EXT_CSD (CMD8): reads the whole EXT_CSD register set.
pub const MMC_SEND_EXT_CSD: u32 = 8;

/// WRITE_BLOCK (CMD24): writes one block of data.
pub const MMC_WRITE_BLOCK: u32 = 24;

/// Response and command-class flags of a SWITCH (R1b, addressed command).
pub const MMC_SWITCH_FLAGS: u32 = 0x49d;

/// Response and command-class flags of a data transfer (R1, addressed data transfer).
pub const MMC_DATA_FLAGS: u32 = 0xb5;

/// Size in bytes of the EXT_CSD register set.
pub const EXT_CSD_SIZE: usize = 512;

/// FFU_STATUS: outcome of the last firmware install, zero on success.
pub const EXT_CSD_FFU_STATUS: usize = 26;

/// MODE_OPERATION_CODES: operation requested while in FFU mode.
pub const EXT_CSD_MODE_OPERATION_CODES: u8 = 29;

/// MODE_CONFIG: the device's operating mode.
pub const EXT_CSD_MODE_CONFIG: u8 = 30;

/// DATA_SECTOR_SIZE: 0 for 512-byte sectors, 1 for 4096-byte sectors.
pub const EXT_CSD_DATA_SECTOR_SIZE: usize = 61;

/// FW_CONFIG: firmware configuration, bit 0 disables updates.
pub const EXT_CSD_FW_CONFIG: usize = 169;

/// EXT_CSD_REV: revision of the register map.
pub const EXT_CSD_REV: usize = 192;

/// SUPPORTED_MODES: bit 0 announces FFU.
pub const EXT_CSD_SUPPORTED_MODES: usize = 493;

/// First register-map revision that defines FFU (eMMC 5.0).
pub const EXT_CSD_REV_V5_0: u8 = 7;

/// FFU bit of SUPPORTED_MODES.
pub const EXT_CSD_FFU: u8 = 0x01;

/// Update-disable bit of FW_CONFIG.
pub const EXT_CSD_UPDATE_DISABLE: u8 = 0x01;

/// MODE_CONFIG value of normal operation.
pub const EXT_CSD_NORMAL_MODE: u8 = 0x00;

/// MODE_CONFIG value of FFU mode.
pub const EXT_CSD_FFU_MODE: u8 = 0x01;

/// MODE_CONFIG value of the vendor-specific mode.
pub const EXT_CSD_VENDOR_MODE: u8 = 0x10;

/// MODE_OPERATION_CODES value that installs the transferred firmware.
pub const EXT_CSD_FFU_INSTALL: u8 = 0x01;

/// Command set selected by every SWITCH built here (the standard MMC set).
pub const EXT_CSD_CMD_SET_NORMAL: u8 = 0x01;

/// The most data bytes that the host's block layer takes in one command.
pub const MMC_IOC_MAX_BYTES: u32 = 524288;

/// The most commands that the host's block layer takes in one submission.
pub const MMC_IOC_MAX_CMDS: u32 = 255;

/// Small sector size in bytes.
pub const SECTOR_SIZE_512: u32 = 512;

/// Large sector size in bytes.
pub const SECTOR_SIZE_4K: u32 = 4096;

} // verus!
