//! The EXT_CSD register image and the fields of it that an update reads.

use vstd::prelude::*;
use crate::constants::{
    EXT_CSD_DATA_SECTOR_SIZE, EXT_CSD_FFU, EXT_CSD_FFU_STATUS, EXT_CSD_FW_CONFIG,
    EXT_CSD_MODE_CONFIG, EXT_CSD_REV, EXT_CSD_REV_V5_0, EXT_CSD_SIZE, EXT_CSD_SUPPORTED_MODES,
    EXT_CSD_UPDATE_DISABLE, EXT_CSD_VENDOR_MODE, EXT_CSD_FFU_MODE, EXT_CSD_NORMAL_MODE,
    SECTOR_SIZE_4K, SECTOR_SIZE_512,
};
use crate::error::{FfuError, TransportError, ValidationError};

verus! {

/// The revision byte of a register image.
pub open spec fn revision_of(bytes: Seq<u8>) -> u8 {
    bytes[EXT_CSD_REV as int]
}

/// The supported-modes byte of a register image.
pub open spec fn supported_modes_of(bytes: Seq<u8>) -> u8 {
    bytes[EXT_CSD_SUPPORTED_MODES as int]
}

/// The firmware-configuration byte of a register image.
pub open spec fn fw_config_of(bytes: Seq<u8>) -> u8 {
    bytes[EXT_CSD_FW_CONFIG as int]
}

/// The sector size in bytes that a register image announces: 4096 where the
/// sector-size byte is 1, and 512 for zero and for every reserved value.
pub open spec fn sector_size_of(bytes: Seq<u8>) -> u32 {
    if bytes[EXT_CSD_DATA_SECTOR_SIZE as int] == 1 {
        SECTOR_SIZE_4K
    } else {
        SECTOR_SIZE_512
    }
}

/// The operating-mode byte of a register image.
pub open spec fn mode_config_of(bytes: Seq<u8>) -> u8 {
    bytes[EXT_CSD_MODE_CONFIG as int]
}

/// The operating modes that the mode byte tells apart.
#[derive(Clone, Copy, Debug, PartialEq, Eq)]
pub enum DeviceMode {
    Normal,
    Ffu,
    VendorSpecific,
    Reserved,
}

/// The operating mode that a mode byte stands for.
pub open spec fn device_mode_of(mode_config: u8) -> DeviceMode {
    if mode_config == EXT_CSD_NORMAL_MODE {
        DeviceMode::Normal
    } else if mode_config == EXT_CSD_FFU_MODE {
        DeviceMode::Ffu
    } else if mode_config == EXT_CSD_VENDOR_MODE {
        DeviceMode::VendorSpecific
    } else {
        DeviceMode::Reserved
    }
}

/// The install-status byte of a register image.
pub open spec fn ffu_status_of(bytes: Seq<u8>) -> u8 {
    bytes[EXT_CSD_FFU_STATUS as int]
}

/// A snapshot of the 512 register bytes, as read from the device.
pub struct ExtCsdImage {
    bytes: Vec<u8>,
}

/// What an update needs to know of a device, taken from one register image.
#[derive(Clone, Copy, Debug, PartialEq, Eq)]
pub struct DeviceCapability {
    pub revision: u8,
    pub supported_modes: u8,
    pub update_disabled: bool,
    pub sector_size: u32,
    pub fw_config: u8,
}

/// The capability that a register image describes.
pub open spec fn capability_of(bytes: Seq<u8>) -> DeviceCapability {
    DeviceCapability {
        revision: revision_of(bytes),
        supported_modes: supported_modes_of(bytes),
        update_disabled: fw_config_of(bytes) & EXT_CSD_UPDATE_DISABLE != 0,
        sector_size: sector_size_of(bytes),
        fw_config: fw_config_of(bytes),
    }
}

impl ExtCsdImage {
    #[verifier::type_invariant]
    spec fn well_formed(self) -> bool {
        self.bytes@.len() == EXT_CSD_SIZE
    }

    /// The register bytes.
    pub closed spec fn view(&self) -> Seq<u8> {
        self.bytes@
    }

    /// Takes the first 512 of the bytes that a read returned; fewer are a short read.
    pub fn from_bytes(data: &Vec<u8>) -> (r: Result<ExtCsdImage, FfuError>)
        ensures
            data@.len() >= EXT_CSD_SIZE ==> r is Ok && r->Ok_0@ == data@.subrange(
                0,
                EXT_CSD_SIZE as int,
            ),
            data@.len() < EXT_CSD_SIZE ==> r == Err::<ExtCsdImage, FfuError>(FfuError::ShortRead),
    {
        if data.len() < EXT_CSD_SIZE {
            return Err(FfuError::ShortRead);
        }
        let mut bytes: Vec<u8> = Vec::new();
        let mut i: usize = 0;
        while i < EXT_CSD_SIZE
            invariant
                i <= EXT_CSD_SIZE,
                data@.len() >= EXT_CSD_SIZE,
                bytes@ == data@.subrange(0, i as int),
            decreases EXT_CSD_SIZE - i,
        {
            bytes.push(data[i]);
            i += 1;
            assert(bytes@ =~= data@.subrange(0, i as int));
        }
        Ok(ExtCsdImage { bytes })
    }

    /// The register byte at an offset.
    pub fn byte(&self, offset: usize) -> (b: u8)
        requires
            offset < EXT_CSD_SIZE,
        ensures
            b == self@[offset as int],
    {
        proof {
            use_type_invariant(self);
        }
        self.bytes[offset]
    }

    /// Revision of the register map.
    pub fn revision(&self) -> (r: u8)
        ensures
            r == revision_of(self@),
    {
        self.byte(EXT_CSD_REV)
    }

    /// The supported-modes bitmask.
    pub fn supported_modes(&self) -> (r: u8)
        ensures
            r == supported_modes_of(self@),
    {
        self.byte(EXT_CSD_SUPPORTED_MODES)
    }

    /// Whether the device announces FFU.
    pub fn ffu_supported(&self) -> (r: bool)
        ensures
            r == (supported_modes_of(self@) & EXT_CSD_FFU != 0),
    {
        self.byte(EXT_CSD_SUPPORTED_MODES) & EXT_CSD_FFU != 0
    }

    /// The firmware-configuration byte.
    pub fn fw_config(&self) -> (r: u8)
        ensures
            r == fw_config_of(self@),
    {
        self.byte(EXT_CSD_FW_CONFIG)
    }

    /// Whether firmware updates are disabled.
    pub fn update_disabled(&self) -> (r: bool)
        ensures
            r == (fw_config_of(self@) & EXT_CSD_UPDATE_DISABLE != 0),
    {
        self.byte(EXT_CSD_FW_CONFIG) & EXT_CSD_UPDATE_DISABLE != 0
    }

    /// The data sector size in bytes, 512 or 4096.
    pub fn data_sector_size(&self) -> (r: u32)
        ensures
            r == sector_size_of(self@),
            r == SECTOR_SIZE_512 || r == SECTOR_SIZE_4K,
    {
        if self.byte(EXT_CSD_DATA_SECTOR_SIZE) == 1 {
            SECTOR_SIZE_4K
        } else {
            SECTOR_SIZE_512
        }
    }

    /// The operating mode that the device reports.
    pub fn mode_config(&self) -> (r: u8)
        ensures
            r == mode_config_of(self@),
    {
        self.byte(EXT_CSD_MODE_CONFIG as usize)
    }

    /// The operating mode that the device reports, by name.
    pub fn mode(&self) -> (r: DeviceMode)
        ensures
            r == device_mode_of(mode_config_of(self@)),
    {
        let value: u8 = self.mode_config();
        if value == EXT_CSD_NORMAL_MODE {
            DeviceMode::Normal
        } else if value == EXT_CSD_FFU_MODE {
            DeviceMode::Ffu
        } else if value == EXT_CSD_VENDOR_MODE {
            DeviceMode::VendorSpecific
        } else {
            DeviceMode::Reserved
        }
    }

    /// The status of the last install, zero on success.
    pub fn ffu_status(&self) -> (r: u8)
        ensures
            r == ffu_status_of(self@),
    {
        self.byte(EXT_CSD_FFU_STATUS)
    }

    /// The capability that this image describes.
    pub fn capability(&self) -> (cap: DeviceCapability)
        ensures
            cap == capability_of(self@),
            cap.sector_size == SECTOR_SIZE_512 || cap.sector_size == SECTOR_SIZE_4K,
    {
        DeviceCapability {
            revision: self.revision(),
            supported_modes: self.supported_modes(),
            update_disabled: self.update_disabled(),
            sector_size: self.data_sector_size(),
            fw_config: self.fw_config(),
        }
    }
}

/// What a register read amounts to, given how the transport answered the
/// read command: a rejected command is a failed read, fewer than 512 bytes
/// are a short read, and the first 512 bytes are the image otherwise.
pub fn ext_csd_from_response(response: Result<Vec<u8>, TransportError>) -> (r: Result<
    ExtCsdImage,
    FfuError,
>)
    ensures
        match response {
            Err(e) => r == Err::<ExtCsdImage, FfuError>(FfuError::RegisterReadFailed(e)),
            Ok(data) => if data@.len() < EXT_CSD_SIZE {
                r == Err::<ExtCsdImage, FfuError>(FfuError::ShortRead)
            } else {
                r is Ok && r->Ok_0@ == data@.subrange(0, EXT_CSD_SIZE as int)
            },
        },
{
    match response {
        Err(e) => Err(FfuError::RegisterReadFailed(e)),
        Ok(data) => ExtCsdImage::from_bytes(&data),
    }
}

impl DeviceCapability {
    /// Whether the device announces FFU.
    pub open spec fn ffu_supported(self) -> bool {
        self.supported_modes & EXT_CSD_FFU != 0
    }

    /// What stands against an update, if anything: an old revision first, then
    /// missing FFU support, then disabled updates.
    pub open spec fn validation(self) -> Result<(), ValidationError> {
        if self.revision < EXT_CSD_REV_V5_0 {
            Err(ValidationError::RevisionTooOld)
        } else if !self.ffu_supported() {
            Err(ValidationError::FfuNotSupported)
        } else if self.update_disabled {
            Err(ValidationError::UpdateDisabled)
        } else {
            Ok(())
        }
    }

    /// Whether the data sector size is one of the two that the register map defines.
    pub open spec fn sector_size_valid(self) -> bool {
        self.sector_size == SECTOR_SIZE_512 || self.sector_size == SECTOR_SIZE_4K
    }

    /// Checks that the device supports an update and allows it. Succeeds
    /// exactly for a revision of at least 5.0 with the FFU bit set and updates
    /// not disabled.
    pub fn validate(&self) -> (r: Result<(), ValidationError>)
        ensures
            r == self.validation(),
            r is Ok <==> (self.revision >= EXT_CSD_REV_V5_0 && self.ffu_supported()
                && !self.update_disabled),
    {
        if self.revision < EXT_CSD_REV_V5_0 {
            Err(ValidationError::RevisionTooOld)
        } else if self.supported_modes & EXT_CSD_FFU == 0 {
            Err(ValidationError::FfuNotSupported)
        } else if self.update_disabled {
            Err(ValidationError::UpdateDisabled)
        } else {
            Ok(())
        }
    }
}

} // verus!
