use mmc_ffu::command::{MmcIocMultiCmd, RawCommand};
use mmc_ffu::error::{ErrorKind, Failure, FfuError, TransportError, ValidationError};
use mmc_ffu::orchestrator::{Action, Event, FfuSession, Outcome, Phase};
use mmc_ffu::writer::FfuConfig;

/// A device that keeps its registers and what was written to it, and can be
/// told to fail the command with a given index.
struct Device {
    ext_csd: Vec<u8>,
    written: Vec<u8>,
    addresses: Vec<u32>,
    commands: usize,
    writes: usize,
    batches: Vec<usize>,
    fail_at: Option<usize>,
}

fn device(revision: u8, supported_modes: u8, fw_config: u8, sector_byte: u8) -> Device {
    let mut ext_csd = vec![0u8; 512];
    ext_csd[192] = revision;
    ext_csd[493] = supported_modes;
    ext_csd[169] = fw_config;
    ext_csd[61] = sector_byte;
    Device {
        ext_csd,
        written: Vec::new(),
        addresses: Vec::new(),
        commands: 0,
        writes: 0,
        batches: Vec::new(),
        fail_at: None,
    }
}

fn good_device() -> Device {
    device(8, 0x01, 0x00, 0)
}

fn submit(dev: &mut Device, cmd: &RawCommand) -> Result<Vec<u8>, TransportError> {
    let index = dev.commands;
    dev.commands += 1;
    if dev.fail_at == Some(index) {
        return Err(TransportError::IoFailure);
    }
    if cmd.write_flag {
        dev.writes += 1;
    }
    match cmd.opcode {
        8 => Ok(dev.ext_csd.clone()),
        6 => {
            let field = ((cmd.arg >> 16) & 0xff) as usize;
            let value = ((cmd.arg >> 8) & 0xff) as u8;
            if field == 30 {
                dev.ext_csd[30] = value;
            }
            Ok(Vec::new())
        }
        24 => {
            dev.written.extend_from_slice(&cmd.data);
            dev.addresses.push(cmd.arg);
            Ok(Vec::new())
        }
        _ => Err(TransportError::NotSupported),
    }
}

fn submit_batch(dev: &mut Device, batch: &MmcIocMultiCmd) -> Result<Vec<u8>, TransportError> {
    dev.batches.push(batch.cmds.len());
    for cmd in batch.cmds.iter() {
        submit(dev, cmd)?;
    }
    Ok(Vec::new())
}

fn update(dev: &mut Device, image: Vec<u8>, config: FfuConfig) -> (Outcome, FfuSession) {
    let mut session = FfuSession::new(image, config);
    let mut action = session.step(Event::Start);
    loop {
        assert!(session.is_well_formed());
        let answer = match &action {
            Action::Submit(cmd) => submit(dev, cmd),
            Action::SubmitBatch(batch) => submit_batch(dev, batch),
            Action::Finish(outcome) => return (*outcome, session),
            Action::Wait => panic!("the state machine waits in the middle of an update"),
        };
        action = match answer {
            Ok(data) => session.step(Event::Completed(data)),
            Err(e) => session.step(Event::Rejected(e)),
        };
    }
}

fn single() -> FfuConfig {
    FfuConfig { max_command_bytes: 512 * 1024, max_batch: 1, max_firmware_bytes: 1 << 20 }
}

fn pattern(len: usize) -> Vec<u8> {
    (0..len).map(|i| (i % 251) as u8 + 1).collect()
}

#[test]
fn capable_device_passes_validation_and_succeeds() {
    let mut dev = good_device();
    let (outcome, session) = update(&mut dev, pattern(1024), single());
    assert_eq!(outcome, Outcome::Succeeded);
    assert_eq!(session.phase, Phase::Succeeded);
    assert_eq!(outcome.exit_code(), 0);
}

#[test]
fn revision_below_minimum_fails_validation_without_writes() {
    let mut dev = device(6, 0x01, 0x00, 0);
    let (outcome, session) = update(&mut dev, pattern(1024), single());
    assert_eq!(
        outcome,
        Outcome::Failed {
            failure: Failure::Validation(ValidationError::RevisionTooOld),
            restore_error: None
        }
    );
    assert_eq!(session.phase, Phase::Failed);
    assert_ne!(outcome.exit_code(), 0);
    assert_eq!(dev.writes, 0);
    assert_eq!(dev.commands, 1);
    assert!(dev.written.is_empty());
    assert_eq!(dev.ext_csd[30], 0);
}

#[test]
fn missing_ffu_bit_fails_validation_without_writes() {
    let mut dev = device(7, 0xfe, 0x00, 0);
    let (outcome, _) = update(&mut dev, pattern(512), single());
    assert_eq!(
        outcome,
        Outcome::Failed {
            failure: Failure::Validation(ValidationError::FfuNotSupported),
            restore_error: None
        }
    );
    assert_eq!(dev.writes, 0);
}

#[test]
fn update_disable_fails_validation_without_writes() {
    let mut dev = device(7, 0x01, 0x01, 0);
    let (outcome, _) = update(&mut dev, pattern(512), single());
    assert_eq!(
        outcome,
        Outcome::Failed {
            failure: Failure::Validation(ValidationError::UpdateDisabled),
            restore_error: None
        }
    );
    assert_eq!(dev.writes, 0);
    assert_eq!(outcome.exit_code(), ErrorKind::Validation.exit_code());
}

#[test]
fn three_chunk_image_succeeds() {
    let mut dev = good_device();
    let image = pattern(3 * 512);
    let (outcome, session) = update(&mut dev, image.clone(), single());
    assert_eq!(outcome, Outcome::Succeeded);
    assert_eq!(dev.written, image);
    assert_eq!(dev.addresses, vec![0, 1, 2]);
    assert_eq!(session.chunks_done, 3);
    assert_eq!(session.bytes_transferred, 1536);
    // read, enter, read back, three writes, install, restore, read back
    assert_eq!(dev.commands, 9);
    assert_eq!(dev.writes, 6);
    assert_eq!(dev.ext_csd[30], 0);
}

#[test]
fn unaligned_image_is_padded_with_zeros() {
    let mut dev = good_device();
    let image = pattern(1000);
    let (outcome, session) = update(&mut dev, image.clone(), single());
    assert_eq!(outcome, Outcome::Succeeded);
    assert_eq!(dev.written.len(), 1024);
    assert_eq!(&dev.written[..1000], &image[..]);
    assert!(dev.written[1000..].iter().all(|b| *b == 0));
    assert_eq!(session.bytes_transferred, 1024);
}

#[test]
fn unaligned_image_is_padded_to_large_sectors() {
    let mut dev = device(8, 0x01, 0x04, 1);
    let image = pattern(4097);
    let (outcome, _) = update(&mut dev, image.clone(), single());
    assert_eq!(outcome, Outcome::Succeeded);
    assert_eq!(dev.written.len(), 8192);
    assert_eq!(&dev.written[..4097], &image[..]);
    assert!(dev.written[4097..].iter().all(|b| *b == 0));
    assert_eq!(dev.addresses, vec![4, 5]);
}

#[test]
fn batches_follow_the_transport_limit() {
    let mut dev = good_device();
    let config = FfuConfig { max_command_bytes: 4096, max_batch: 2, max_firmware_bytes: 4096 };
    let image = pattern(3 * 512);
    let (outcome, _) = update(&mut dev, image.clone(), config);
    assert_eq!(outcome, Outcome::Succeeded);
    assert_eq!(dev.batches, vec![2, 1]);
    assert_eq!(dev.written, image);
    assert_eq!(dev.addresses, vec![0, 1, 2]);
}

#[test]
fn every_injected_failure_ends_in_normal_mode() {
    let mut clean = good_device();
    let (outcome, _) = update(&mut clean, pattern(1024), single());
    assert_eq!(outcome, Outcome::Succeeded);
    let total = clean.commands;
    assert_eq!(total, 8);
    for at in 0..total {
        let mut dev = good_device();
        dev.fail_at = Some(at);
        let (outcome, _) = update(&mut dev, pattern(1024), single());
        match outcome {
            Outcome::Succeeded => panic!("a failed command went unnoticed"),
            Outcome::Failed { restore_error, .. } => {
                if dev.ext_csd[30] != 0 {
                    assert!(restore_error.is_some());
                }
                // the switch back is the seventh command of a clean run
                assert_eq!(restore_error.is_some(), at == 6);
            }
        }
        assert_ne!(outcome.exit_code(), 0);
    }
}

#[test]
fn failures_are_classified_by_phase() {
    let expected = [
        Failure::Register(FfuError::RegisterReadFailed(TransportError::IoFailure)),
        Failure::Switch(TransportError::IoFailure),
        Failure::Register(FfuError::RegisterReadFailed(TransportError::IoFailure)),
        Failure::Transfer(FfuError::TransferFailed(TransportError::IoFailure)),
        Failure::Install(TransportError::IoFailure),
        Failure::Restore(TransportError::IoFailure),
        Failure::Register(FfuError::RegisterReadFailed(TransportError::IoFailure)),
    ];
    for (at, failure) in expected.iter().enumerate() {
        let mut dev = good_device();
        dev.fail_at = Some(at);
        let (outcome, _) = update(&mut dev, pattern(512), single());
        let restore_error = if at == 5 { Some(TransportError::IoFailure) } else { None };
        assert_eq!(outcome, Outcome::Failed { failure: *failure, restore_error });
    }
}

#[test]
fn failed_transfer_restores_normal_mode() {
    let mut dev = good_device();
    dev.fail_at = Some(4);
    let (outcome, session) = update(&mut dev, pattern(3 * 512), single());
    assert_eq!(
        outcome,
        Outcome::Failed {
            failure: Failure::Transfer(FfuError::TransferFailed(TransportError::IoFailure)),
            restore_error: None
        }
    );
    assert_eq!(dev.ext_csd[30], 0);
    assert_eq!(session.bytes_transferred, 512);
    assert_eq!(outcome.exit_code(), 4);
}

#[test]
fn rejected_restore_reports_both_errors() {
    let mut dev = good_device();
    dev.fail_at = Some(3);
    let mut session = FfuSession::new(pattern(512), single());
    let mut action = session.step(Event::Start);
    let mut outcome = None;
    let mut restore_rejected = false;
    while outcome.is_none() {
        let answer = match &action {
            Action::Submit(cmd) => {
                if session.phase == Phase::ExitingFfuMode {
                    restore_rejected = true;
                    Err(TransportError::DeviceBusy)
                } else {
                    submit(&mut dev, cmd)
                }
            }
            Action::SubmitBatch(batch) => submit_batch(&mut dev, batch),
            Action::Finish(o) => {
                outcome = Some(*o);
                continue;
            }
            Action::Wait => panic!("the state machine waits in the middle of an update"),
        };
        action = match answer {
            Ok(data) => session.step(Event::Completed(data)),
            Err(e) => session.step(Event::Rejected(e)),
        };
    }
    assert!(restore_rejected);
    assert_eq!(
        outcome,
        Some(Outcome::Failed {
            failure: Failure::Transfer(FfuError::TransferFailed(TransportError::IoFailure)),
            restore_error: Some(TransportError::DeviceBusy)
        })
    );
    assert_eq!(dev.ext_csd[30], 1);
}

#[test]
fn update_can_be_repeated() {
    let mut dev = good_device();
    let (first, _) = update(&mut dev, pattern(2048), single());
    let mode_after_first = dev.ext_csd[30];
    let (second, _) = update(&mut dev, pattern(2048), single());
    assert_eq!(first, Outcome::Succeeded);
    assert_eq!(second, Outcome::Succeeded);
    assert_eq!(dev.ext_csd[30], mode_after_first);
    assert_eq!(mode_after_first, 0);
}

#[test]
fn image_of_exactly_the_largest_size_succeeds() {
    let mut dev = good_device();
    let config = FfuConfig { max_command_bytes: 512, max_batch: 1, max_firmware_bytes: 1024 };
    let (outcome, _) = update(&mut dev, pattern(1024), config);
    assert_eq!(outcome, Outcome::Succeeded);
    assert_eq!(dev.written.len(), 1024);
}

#[test]
fn image_one_byte_too_large_is_refused_before_any_transfer() {
    let mut dev = good_device();
    let config = FfuConfig { max_command_bytes: 512, max_batch: 1, max_firmware_bytes: 1024 };
    let (outcome, _) = update(&mut dev, pattern(1025), config);
    assert_eq!(
        outcome,
        Outcome::Failed { failure: Failure::Transfer(FfuError::ImageTooLarge), restore_error: None }
    );
    assert!(dev.written.is_empty());
    assert!(dev.addresses.is_empty());
    assert_eq!(dev.ext_csd[30], 0);
}

#[test]
fn sector_larger_than_a_command_is_an_invalid_argument() {
    let mut dev = device(8, 0x01, 0x00, 1);
    let config = FfuConfig { max_command_bytes: 512, max_batch: 1, max_firmware_bytes: 8192 };
    let (outcome, _) = update(&mut dev, pattern(4096), config);
    assert_eq!(
        outcome,
        Outcome::Failed {
            failure: Failure::Transfer(FfuError::TransferFailed(TransportError::InvalidArgument)),
            restore_error: None
        }
    );
    assert!(dev.written.is_empty());
}

#[test]
fn mode_byte_that_does_not_confirm_is_a_failure() {
    let mut session = FfuSession::new(pattern(512), single());
    let dev = good_device();
    session.step(Event::Start);
    session.step(Event::Completed(dev.ext_csd.clone()));
    assert_eq!(session.phase, Phase::EnteringFfuMode);
    session.step(Event::Completed(Vec::new()));
    assert!(session.confirming);
    let action = session.step(Event::Completed(dev.ext_csd.clone()));
    assert_eq!(session.phase, Phase::ExitingFfuMode);
    assert_eq!(session.failure, Some(Failure::ModeNotEntered));
    match action {
        Action::Submit(cmd) => {
            assert_eq!(cmd.opcode, 6);
            assert_eq!(cmd.arg, 0x031e_0001);
        }
        _ => panic!("the switch back to normal mode is due"),
    }
}

#[test]
fn failed_install_status_is_a_verification_failure() {
    let mut dev = good_device();
    dev.ext_csd[26] = 0x11;
    let (outcome, _) = update(&mut dev, pattern(512), single());
    assert_eq!(outcome, Outcome::Failed { failure: Failure::Verification, restore_error: None });
    assert_eq!(outcome.exit_code(), ErrorKind::Verification.exit_code());
    assert_eq!(dev.ext_csd[30], 0);
}

#[test]
fn short_register_read_fails_validation_phase() {
    let mut session = FfuSession::new(pattern(512), single());
    session.step(Event::Start);
    let action = session.step(Event::Completed(vec![0u8; 511]));
    assert_eq!(
        action,
        Action::Finish(Outcome::Failed {
            failure: Failure::Register(FfuError::ShortRead),
            restore_error: None
        })
    );
}

#[test]
fn events_that_do_not_fit_are_ignored() {
    let mut session = FfuSession::new(pattern(512), single());
    assert_eq!(session.step(Event::Completed(Vec::new())), Action::Wait);
    assert_eq!(session.step(Event::Rejected(TransportError::DeviceBusy)), Action::Wait);
    assert_eq!(session.phase, Phase::Idle);
    assert!(!session.is_finished());
    session.step(Event::Start);
    assert_eq!(session.step(Event::Start), Action::Wait);
    assert_eq!(session.phase, Phase::Validating);
}

#[test]
fn finished_session_repeats_its_outcome() {
    let mut dev = good_device();
    let (outcome, mut session) = update(&mut dev, pattern(512), single());
    assert!(session.is_finished());
    assert_eq!(session.step(Event::Start), Action::Finish(outcome));
    assert_eq!(session.step(Event::Completed(Vec::new())), Action::Finish(outcome));
}

#[test]
fn empty_image_installs_without_transfer() {
    let mut dev = good_device();
    let (outcome, _) = update(&mut dev, Vec::new(), single());
    assert_eq!(outcome, Outcome::Succeeded);
    assert!(dev.written.is_empty());
}

#[test]
fn exit_codes_tell_the_classes_apart() {
    let codes = [
        ErrorKind::Validation.exit_code(),
        ErrorKind::Transport.exit_code(),
        ErrorKind::Transfer.exit_code(),
        ErrorKind::Install.exit_code(),
        ErrorKind::Verification.exit_code(),
    ];
    assert_eq!(codes, [2, 3, 4, 5, 6]);
    assert_eq!(Failure::Switch(TransportError::DeviceBusy).kind(), ErrorKind::Transport);
    assert_eq!(Failure::Install(TransportError::DeviceBusy).kind(), ErrorKind::Install);
    assert_eq!(Failure::ModeNotEntered.kind(), ErrorKind::Transport);
    assert_eq!(Failure::Restore(TransportError::IoFailure).kind(), ErrorKind::Transport);
}

#[test]
fn state_edited_by_hand_is_not_well_formed() {
    let mut session = FfuSession::new(pattern(512), single());
    assert!(session.is_well_formed());
    session.phase = Phase::Transferring;
    assert!(!session.is_well_formed());
    session.phase = Phase::Failed;
    assert!(!session.is_well_formed());
    session.failure = Some(Failure::Verification);
    assert!(session.is_well_formed());
}

#[test]
fn submissions_pass_the_transport_checks() {
    let config = FfuConfig { max_command_bytes: 512, max_batch: 2, max_firmware_bytes: 4096 };
    let mut dev = good_device();
    let mut session = FfuSession::new(pattern(1500), config);
    let mut action = session.step(Event::Start);
    loop {
        let answer = match &action {
            Action::Submit(cmd) => {
                assert_eq!(mmc_ffu::transport::check_command(cmd, 512), Ok(()));
                submit(&mut dev, cmd)
            }
            Action::SubmitBatch(batch) => {
                assert_eq!(mmc_ffu::transport::check_batch(batch, &config), Ok(()));
                submit_batch(&mut dev, batch)
            }
            Action::Finish(outcome) => {
                assert_eq!(*outcome, Outcome::Succeeded);
                break;
            }
            Action::Wait => panic!("the state machine waits in the middle of an update"),
        };
        action = session.step(Event::Completed(answer.unwrap()));
    }
    assert_eq!(dev.batches, vec![2, 1]);
}
