use mmc_ffu::command::{build_read_ext_csd, build_switch, AccessMode, MmcIocMultiCmd};
use mmc_ffu::error::{FfuError, TransportError, ValidationError};
use mmc_ffu::ext_csd::{ext_csd_from_response, DeviceCapability, DeviceMode, ExtCsdImage};
use mmc_ffu::transport::{check_batch, check_command};
use mmc_ffu::writer::{build_chunk, build_chunks, check_image, count_chunks, plan_image, FfuConfig};

fn registers(revision: u8, supported_modes: u8, fw_config: u8, sector_byte: u8) -> Vec<u8> {
    let mut bytes = vec![0u8; 512];
    bytes[192] = revision;
    bytes[493] = supported_modes;
    bytes[169] = fw_config;
    bytes[61] = sector_byte;
    bytes
}

fn capability(sector_size: u32, fw_config: u8) -> DeviceCapability {
    DeviceCapability {
        revision: 8,
        supported_modes: 1,
        update_disabled: false,
        sector_size,
        fw_config,
    }
}

#[test]
fn fields_are_read_at_their_offsets() {
    let mut bytes = registers(7, 0x03, 0x02, 1);
    bytes[30] = 0x01;
    bytes[26] = 0x10;
    let image = ExtCsdImage::from_bytes(&bytes).unwrap();
    assert_eq!(image.revision(), 7);
    assert_eq!(image.supported_modes(), 0x03);
    assert!(image.ffu_supported());
    assert_eq!(image.fw_config(), 0x02);
    assert!(!image.update_disabled());
    assert_eq!(image.data_sector_size(), 4096);
    assert_eq!(image.mode_config(), 1);
    assert_eq!(image.ffu_status(), 0x10);
    assert_eq!(image.byte(192), 7);
}

#[test]
fn reserved_sector_size_values_mean_512() {
    for value in [0u8, 2, 3, 0xff] {
        let image = ExtCsdImage::from_bytes(&registers(7, 1, 0, value)).unwrap();
        assert_eq!(image.data_sector_size(), 512);
    }
}

#[test]
fn capability_is_taken_from_the_image() {
    let image = ExtCsdImage::from_bytes(&registers(8, 0x01, 0x03, 0)).unwrap();
    let cap = image.capability();
    assert_eq!(
        cap,
        DeviceCapability {
            revision: 8,
            supported_modes: 1,
            update_disabled: true,
            sector_size: 512,
            fw_config: 3
        }
    );
    assert_eq!(cap.validate(), Err(ValidationError::UpdateDisabled));
}

#[test]
fn validation_checks_revision_then_support_then_disable() {
    let mut cap = capability(512, 0);
    assert_eq!(cap.validate(), Ok(()));
    cap.revision = 7;
    assert_eq!(cap.validate(), Ok(()));
    cap.revision = 6;
    cap.supported_modes = 0;
    cap.update_disabled = true;
    assert_eq!(cap.validate(), Err(ValidationError::RevisionTooOld));
    cap.revision = 7;
    assert_eq!(cap.validate(), Err(ValidationError::FfuNotSupported));
    cap.supported_modes = 0xff;
    assert_eq!(cap.validate(), Err(ValidationError::UpdateDisabled));
}

#[test]
fn short_and_long_reads() {
    assert!(matches!(ExtCsdImage::from_bytes(&vec![0u8; 511]), Err(FfuError::ShortRead)));
    let mut long = registers(9, 1, 0, 0);
    long.extend_from_slice(&[0xaa; 16]);
    assert_eq!(ExtCsdImage::from_bytes(&long).unwrap().revision(), 9);
}

#[test]
fn response_of_a_register_read_is_classified() {
    assert!(matches!(
        ext_csd_from_response(Err(TransportError::DeviceBusy)),
        Err(FfuError::RegisterReadFailed(TransportError::DeviceBusy))
    ));
    assert!(matches!(ext_csd_from_response(Ok(vec![1u8; 100])), Err(FfuError::ShortRead)));
    let image = ext_csd_from_response(Ok(registers(7, 1, 0, 0))).unwrap();
    assert_eq!(image.revision(), 7);
}

#[test]
fn switch_argument_is_packed_by_the_bit_layout() {
    let cmd = build_switch(30, 1, AccessMode::WriteByte);
    assert_eq!(cmd.arg, 0x031e_0101);
    assert_eq!(cmd.opcode, 6);
    assert!(cmd.write_flag);
    assert_eq!(cmd.flags, 0x49d);
    assert_eq!(cmd.blksz, 0);
    assert_eq!(cmd.blocks, 0);
    assert!(cmd.data.is_empty());
    assert_eq!(build_switch(29, 1, AccessMode::WriteByte).arg, 0x031d_0101);
    assert_eq!(build_switch(0xff, 0xff, AccessMode::CommandSet).arg, 0x00ff_ff01);
    assert_eq!(build_switch(0, 0, AccessMode::SetBits).arg, 0x0100_0001);
    assert_eq!(build_switch(0x12, 0x34, AccessMode::ClearBits).arg, 0x0212_3401);
}

#[test]
fn register_read_command_has_a_full_buffer() {
    let cmd = build_read_ext_csd();
    assert!(!cmd.write_flag);
    assert_eq!(cmd.opcode, 8);
    assert_eq!(cmd.arg, 0);
    assert_eq!(cmd.flags, 0xb5);
    assert_eq!(cmd.blksz, 512);
    assert_eq!(cmd.blocks, 1);
    assert_eq!(cmd.data, vec![0u8; 512]);
}

#[test]
fn batch_keeps_the_order_of_its_commands() {
    let mut batch = MmcIocMultiCmd::new();
    assert_eq!(batch.len(), 0);
    batch.push(build_switch(30, 1, AccessMode::WriteByte));
    batch.push(build_read_ext_csd());
    assert_eq!(batch.len(), 2);
    assert_eq!(batch.cmds[0].opcode, 6);
    assert_eq!(batch.cmds[1].opcode, 8);
}

#[test]
fn chunk_counts_round_up() {
    let small = capability(512, 0);
    let large = capability(4096, 0);
    assert_eq!(count_chunks(0, &small), 0);
    assert_eq!(count_chunks(1, &small), 1);
    assert_eq!(count_chunks(512, &small), 1);
    assert_eq!(count_chunks(513, &small), 2);
    assert_eq!(count_chunks(4096, &large), 1);
    assert_eq!(count_chunks(4097, &large), 2);
    assert_eq!(count_chunks(4096, &small), 8);
}

#[test]
fn chunk_carries_one_sector_at_its_address() {
    let cap = capability(512, 0x10);
    let image: Vec<u8> = (0..700).map(|i| (i % 200) as u8 + 1).collect();
    let first = build_chunk(&image, &cap, 0);
    assert!(first.write_flag);
    assert_eq!(first.opcode, 24);
    assert_eq!(first.arg, 0x10);
    assert_eq!(first.flags, 0xb5);
    assert_eq!(first.blksz, 512);
    assert_eq!(first.blocks, 1);
    assert_eq!(first.data, image[..512].to_vec());
    let second = build_chunk(&image, &cap, 1);
    assert_eq!(second.arg, 0x11);
    assert_eq!(second.data.len(), 512);
    assert_eq!(&second.data[..188], &image[512..]);
    assert!(second.data[188..].iter().all(|b| *b == 0));
}

#[test]
fn plan_covers_the_padded_image_in_address_order() {
    let cap = capability(512, 2);
    let config = FfuConfig { max_command_bytes: 512, max_batch: 1, max_firmware_bytes: 2000 };
    let image: Vec<u8> = (0..1300).map(|i| (i % 250) as u8 + 1).collect();
    let plan = plan_image(&image, &cap, &config).unwrap();
    assert_eq!(plan.len(), 3);
    let mut all = Vec::new();
    for (i, cmd) in plan.cmds.iter().enumerate() {
        assert_eq!(cmd.arg, 2 + i as u32);
        assert_eq!(cmd.data.len(), 512);
        all.extend_from_slice(&cmd.data);
    }
    assert_eq!(all.len(), 1536);
    assert_eq!(&all[..1300], &image[..]);
    assert!(all[1300..].iter().all(|b| *b == 0));
    let part = build_chunks(&image, &cap, 1, 2);
    assert_eq!(part.cmds, plan.cmds[1..].to_vec());
}

#[test]
fn plan_refuses_what_cannot_be_transferred() {
    let cap = capability(4096, 0);
    let config = FfuConfig { max_command_bytes: 4096, max_batch: 1, max_firmware_bytes: 8192 };
    assert_eq!(check_image(8192, &cap, &config), Ok(()));
    assert_eq!(check_image(8193, &cap, &config), Err(FfuError::ImageTooLarge));
    assert_eq!(plan_image(&vec![0u8; 8193], &cap, &config), Err(FfuError::ImageTooLarge));
    let narrow = FfuConfig { max_command_bytes: 4095, max_batch: 1, max_firmware_bytes: 8192 };
    assert_eq!(
        plan_image(&vec![0u8; 100], &cap, &narrow),
        Err(FfuError::TransferFailed(TransportError::InvalidArgument))
    );
    assert_eq!(plan_image(&vec![0u8; 8192], &cap, &config).unwrap().len(), 2);
}

#[test]
fn malformed_commands_are_invalid_arguments() {
    let cap = capability(512, 0);
    let image = vec![7u8; 512];
    let good = build_chunk(&image, &cap, 0);
    assert_eq!(check_command(&good, 512), Ok(()));
    assert_eq!(check_command(&good, 511), Err(TransportError::InvalidArgument));
    let mut wrong_geometry = good.clone();
    wrong_geometry.blocks = 2;
    assert_eq!(check_command(&wrong_geometry, 4096), Err(TransportError::InvalidArgument));
    assert_eq!(check_command(&build_switch(30, 0, AccessMode::WriteByte), 0), Ok(()));
    assert_eq!(check_command(&build_read_ext_csd(), 512), Ok(()));
}

#[test]
fn batches_are_checked_against_the_limits() {
    let cap = capability(512, 0);
    let image = vec![7u8; 1536];
    let batch = build_chunks(&image, &cap, 0, 3);
    let config = FfuConfig { max_command_bytes: 512, max_batch: 3, max_firmware_bytes: 4096 };
    assert_eq!(check_batch(&batch, &config), Ok(()));
    let single = FfuConfig { max_batch: 1, ..config };
    assert_eq!(check_batch(&batch, &single), Err(TransportError::NotSupported));
    let two = FfuConfig { max_batch: 2, ..config };
    assert_eq!(check_batch(&batch, &two), Err(TransportError::InvalidArgument));
    assert_eq!(check_batch(&MmcIocMultiCmd::new(), &config), Err(TransportError::InvalidArgument));
    let narrow = FfuConfig { max_command_bytes: 256, ..config };
    assert_eq!(check_batch(&batch, &narrow), Err(TransportError::InvalidArgument));
}

#[test]
fn chunk_addresses_increase_strictly() {
    let cap = capability(4096, 0xff);
    let image = vec![1u8; 5 * 4096 - 1];
    let plan = build_chunks(&image, &cap, 0, count_chunks(image.len(), &cap));
    assert_eq!(plan.len(), 5);
    for pair in plan.cmds.windows(2) {
        assert!(pair[0].arg < pair[1].arg);
    }
    assert_eq!(plan.cmds[0].arg, 0xff);
    assert_eq!(plan.cmds[4].arg, 0x103);
}

#[test]
fn mode_byte_is_read_by_name() {
    let cases = [
        (0x00u8, DeviceMode::Normal),
        (0x01, DeviceMode::Ffu),
        (0x10, DeviceMode::VendorSpecific),
        (0x02, DeviceMode::Reserved),
        (0xff, DeviceMode::Reserved),
    ];
    for (value, mode) in cases {
        let mut bytes = registers(8, 1, 0, 0);
        bytes[30] = value;
        assert_eq!(ExtCsdImage::from_bytes(&bytes).unwrap().mode(), mode);
    }
}
