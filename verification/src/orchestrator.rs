//! The update state machine. It never talks to a device: each step takes what
//! the device answered to the last command and hands out the next command, or
//! the outcome of the update.

use vstd::prelude::*;
use crate::command::{
    build_read_ext_csd, build_switch, read_ext_csd_command, switch_command, AccessMode,
    CommandModel, MmcIocMultiCmd, RawCommand,
};
use crate::constants::{
    EXT_CSD_FFU_INSTALL, EXT_CSD_FFU_MODE, EXT_CSD_MODE_CONFIG, EXT_CSD_MODE_OPERATION_CODES,
    EXT_CSD_NORMAL_MODE, EXT_CSD_SIZE,
};
use crate::error::{Failure, FfuError, TransportError};
use crate::ext_csd::{
    capability_of, ffu_status_of, mode_config_of, DeviceCapability, ExtCsdImage,
};
use crate::writer::{
    build_chunk, build_chunks, check_image, chunk_command, chunk_commands, chunk_count,
    count_chunks, lemma_padded_len, transfer_check, FfuConfig,
};

verus! {

/// Where an update stands.
#[derive(Clone, Copy, Debug, PartialEq, Eq)]
pub enum Phase {
    Idle,
    Validating,
    EnteringFfuMode,
    Transferring,
    Installing,
    ExitingFfuMode,
    Verifying,
    Succeeded,
    Failed,
}

/// How an update ended.
#[derive(Clone, Copy, Debug, PartialEq, Eq)]
pub enum Outcome {
    Succeeded,
    /// The update failed. Where the switch back to normal mode was rejected
    /// too, `restore_error` holds that second error.
    Failed { failure: Failure, restore_error: Option<TransportError> },
}

impl Outcome {
    /// The process exit status of an outcome.
    pub open spec fn exit_code_spec(self) -> i32 {
        match self {
            Outcome::Succeeded => 0,
            Outcome::Failed { failure, .. } => failure.kind_spec().exit_code_spec(),
        }
    }

    /// The process exit status of an outcome: zero for success and for
    /// nothing else, and a status of its own for each class of failure.
    pub fn exit_code(&self) -> (code: i32)
        ensures
            code == self.exit_code_spec(),
            code == 0 <==> self is Succeeded,
    {
        match self {
            Outcome::Succeeded => 0,
            Outcome::Failed { failure, .. } => failure.kind().exit_code(),
        }
    }
}

/// What the caller reports to the state machine.
#[derive(Clone, Debug, PartialEq, Eq)]
pub enum Event {
    /// The update is to begin.
    Start,
    /// The last submission completed; for a read, with the bytes read.
    Completed(Vec<u8>),
    /// The transport failed the last submission.
    Rejected(TransportError),
}

/// An event as a mathematical value.
pub enum EventModel {
    Start,
    Completed(Seq<u8>),
    Rejected(TransportError),
}

impl View for Event {
    type V = EventModel;

    open spec fn view(&self) -> EventModel {
        match *self {
            Event::Start => EventModel::Start,
            Event::Completed(data) => EventModel::Completed(data@),
            Event::Rejected(e) => EventModel::Rejected(e),
        }
    }
}

/// What the caller is to do next.
#[derive(Clone, Debug, PartialEq, Eq)]
pub enum Action {
    /// Nothing: the event did not fit the phase and was ignored.
    Wait,
    /// Submit one command and report how it went.
    Submit(RawCommand),
    /// Submit these commands as one ordered unit and report how it went.
    SubmitBatch(MmcIocMultiCmd),
    /// The update is over.
    Finish(Outcome),
}

/// An action as a mathematical value.
pub enum ActionModel {
    Wait,
    Submit(CommandModel),
    SubmitBatch(Seq<CommandModel>),
    Finish(Outcome),
}

impl View for Action {
    type V = ActionModel;

    open spec fn view(&self) -> ActionModel {
        match *self {
            Action::Wait => ActionModel::Wait,
            Action::Submit(cmd) => ActionModel::Submit(cmd@),
            Action::SubmitBatch(batch) => ActionModel::SubmitBatch(batch@),
            Action::Finish(outcome) => ActionModel::Finish(outcome),
        }
    }
}

/// The working state of one update.
#[derive(Debug)]
pub struct FfuSession {
    /// The firmware image.
    pub image: Vec<u8>,
    /// The limits of the transport and of the device.
    pub config: FfuConfig,
    pub phase: Phase,
    /// While entering FFU mode: the switch was acknowledged and the
    /// registers are being read back.
    pub confirming: bool,
    /// The capability read during validation.
    pub capability: Option<DeviceCapability>,
    /// The number of sectors whose write was acknowledged.
    pub chunks_done: u64,
    /// The number of bytes whose write was acknowledged.
    pub bytes_transferred: u64,
    /// The first failure of the update.
    pub failure: Option<Failure>,
    /// The error of a rejected switch back to normal mode.
    pub restore_error: Option<TransportError>,
}

/// The SWITCH that puts the device into FFU mode.
pub open spec fn enter_ffu_command() -> CommandModel {
    switch_command(EXT_CSD_MODE_CONFIG, EXT_CSD_FFU_MODE, AccessMode::WriteByte)
}

/// The SWITCH that asks the device to install what was transferred.
pub open spec fn install_command() -> CommandModel {
    switch_command(EXT_CSD_MODE_OPERATION_CODES, EXT_CSD_FFU_INSTALL, AccessMode::WriteByte)
}

/// The SWITCH that puts the device back into normal mode.
pub open spec fn restore_command() -> CommandModel {
    switch_command(EXT_CSD_MODE_CONFIG, EXT_CSD_NORMAL_MODE, AccessMode::WriteByte)
}

impl FfuSession {
    /// The data sector size of the device, once validation has read it.
    pub open spec fn sector(self) -> nat {
        self.capability->Some_0.sector_size as nat
    }

    /// The number of sectors that the image takes.
    pub open spec fn total_chunks(self) -> nat {
        chunk_count(self.image@.len(), self.sector())
    }

    /// The number of sectors in the next submission.
    pub open spec fn batch_len(self) -> nat {
        if self.config.max_batch >= 2 {
            if self.total_chunks() - self.chunks_done < self.config.max_batch {
                (self.total_chunks() - self.chunks_done) as nat
            } else {
                self.config.max_batch as nat
            }
        } else {
            1
        }
    }

    /// The next submission of the transfer: a batch where the transport
    /// takes one, else a single command.
    pub open spec fn transfer_action(self) -> ActionModel {
        if self.config.max_batch >= 2 {
            ActionModel::SubmitBatch(
                chunk_commands(
                    self.image@,
                    self.capability->Some_0,
                    self.chunks_done as nat,
                    self.batch_len(),
                ),
            )
        } else {
            ActionModel::Submit(
                chunk_command(self.image@, self.capability->Some_0, self.chunks_done as nat),
            )
        }
    }

    /// The outcome that a finished session reports.
    pub open spec fn outcome(self) -> Outcome {
        if self.phase is Succeeded {
            Outcome::Succeeded
        } else {
            Outcome::Failed { failure: self.failure->Some_0, restore_error: self.restore_error }
        }
    }

    /// The state is one that a session can be in.
    pub open spec fn wf(self) -> bool {
        &&& (self.phase is EnteringFfuMode || self.phase is Transferring || self.phase
            is Installing) ==> self.capability is Some
            && self.capability->Some_0.sector_size_valid()
        &&& self.phase is Transferring ==> {
            &&& transfer_check(self.image@.len(), self.capability->Some_0, self.config) is Ok
            &&& self.chunks_done < self.total_chunks()
            &&& self.bytes_transferred == self.chunks_done * self.sector()
        }
        &&& self.phase is Failed ==> self.failure is Some
    }

    /// A session that has not begun.
    pub open spec fn is_fresh(self) -> bool {
        &&& self.phase is Idle
        &&& !self.confirming
        &&& self.capability is None
        &&& self.chunks_done == 0
        &&& self.bytes_transferred == 0
        &&& self.failure is None
        &&& self.restore_error is None
    }

    /// Ends without touching the device.
    pub open spec fn fail_with(self, failure: Failure) -> (FfuSession, ActionModel) {
        (
            FfuSession { phase: Phase::Failed, failure: Some(failure), ..self },
            ActionModel::Finish(
                Outcome::Failed { failure, restore_error: self.restore_error },
            ),
        )
    }

    /// Records a failure and asks for the switch back to normal mode.
    pub open spec fn restore_after(self, failure: Failure) -> (FfuSession, ActionModel) {
        (
            FfuSession {
                phase: Phase::ExitingFfuMode,
                confirming: false,
                failure: Some(failure),
                ..self
            },
            ActionModel::Submit(restore_command()),
        )
    }

    /// The step out of validation, on the bytes that the register read gave.
    pub open spec fn after_validation(self, data: Seq<u8>) -> (FfuSession, ActionModel) {
        if data.len() < EXT_CSD_SIZE {
            self.fail_with(Failure::Register(FfuError::ShortRead))
        } else {
            let cap = capability_of(data);
            let s = FfuSession { capability: Some(cap), ..self };
            match cap.validation() {
                Err(v) => s.fail_with(Failure::Validation(v)),
                Ok(_) => (
                    FfuSession { phase: Phase::EnteringFfuMode, confirming: false, ..s },
                    ActionModel::Submit(enter_ffu_command()),
                ),
            }
        }
    }

    /// The step out of the read-back that follows the switch into FFU mode.
    pub open spec fn after_confirmation(self, data: Seq<u8>) -> (FfuSession, ActionModel) {
        if data.len() < EXT_CSD_SIZE {
            self.restore_after(Failure::Register(FfuError::ShortRead))
        } else if mode_config_of(data) != EXT_CSD_FFU_MODE {
            self.restore_after(Failure::ModeNotEntered)
        } else {
            match transfer_check(self.image@.len(), self.capability->Some_0, self.config) {
                Err(e) => self.restore_after(Failure::Transfer(e)),
                Ok(_) => {
                    let s = FfuSession {
                        confirming: false,
                        chunks_done: 0,
                        bytes_transferred: 0,
                        ..self
                    };
                    if s.total_chunks() == 0 {
                        (
                            FfuSession { phase: Phase::Installing, ..s },
                            ActionModel::Submit(install_command()),
                        )
                    } else {
                        let t = FfuSession { phase: Phase::Transferring, ..s };
                        (t, t.transfer_action())
                    }
                },
            }
        }
    }

    /// The step after an acknowledged write.
    pub open spec fn after_write(self) -> (FfuSession, ActionModel) {
        let s = FfuSession {
            chunks_done: (self.chunks_done + self.batch_len()) as u64,
            bytes_transferred: (self.bytes_transferred + self.batch_len() * self.sector()) as u64,
            ..self
        };
        if s.chunks_done >= s.total_chunks() {
            (
                FfuSession { phase: Phase::Installing, ..s },
                ActionModel::Submit(install_command()),
            )
        } else {
            (s, s.transfer_action())
        }
    }

    /// The step out of the final read-back.
    pub open spec fn after_verification(self, data: Seq<u8>) -> (FfuSession, ActionModel) {
        if data.len() < EXT_CSD_SIZE {
            self.fail_with(Failure::Register(FfuError::ShortRead))
        } else if mode_config_of(data) == EXT_CSD_NORMAL_MODE && ffu_status_of(data) == 0 {
            (
                FfuSession { phase: Phase::Succeeded, ..self },
                ActionModel::Finish(Outcome::Succeeded),
            )
        } else {
            self.fail_with(Failure::Verification)
        }
    }

    /// The transition function of the update: the state after an event, and
    /// what the caller is to do next.
    pub open spec fn next(self, event: EventModel) -> (FfuSession, ActionModel) {
        match self.phase {
            Phase::Idle => match event {
                EventModel::Start => (
                    FfuSession { phase: Phase::Validating, ..self },
                    ActionModel::Submit(read_ext_csd_command()),
                ),
                _ => (self, ActionModel::Wait),
            },
            Phase::Succeeded | Phase::Failed => (self, ActionModel::Finish(self.outcome())),
            _ => match event {
                EventModel::Start => (self, ActionModel::Wait),
                EventModel::Rejected(e) => match self.phase {
                    Phase::Validating => self.fail_with(
                        Failure::Register(FfuError::RegisterReadFailed(e)),
                    ),
                    Phase::EnteringFfuMode => if self.confirming {
                        self.restore_after(Failure::Register(FfuError::RegisterReadFailed(e)))
                    } else {
                        self.restore_after(Failure::Switch(e))
                    },
                    Phase::Transferring => self.restore_after(
                        Failure::Transfer(FfuError::TransferFailed(e)),
                    ),
                    Phase::Installing => self.restore_after(Failure::Install(e)),
                    Phase::ExitingFfuMode => {
                        let failure = match self.failure {
                            Some(f) => f,
                            None => Failure::Restore(e),
                        };
                        (
                            FfuSession {
                                phase: Phase::Failed,
                                failure: Some(failure),
                                restore_error: Some(e),
                                ..self
                            },
                            ActionModel::Finish(
                                Outcome::Failed { failure, restore_error: Some(e) },
                            ),
                        )
                    },
                    _ => self.fail_with(Failure::Register(FfuError::RegisterReadFailed(e))),
                },
                EventModel::Completed(data) => match self.phase {
                    Phase::Validating => self.after_validation(data),
                    Phase::EnteringFfuMode => if self.confirming {
                        self.after_confirmation(data)
                    } else {
                        (
                            FfuSession { confirming: true, ..self },
                            ActionModel::Submit(read_ext_csd_command()),
                        )
                    },
                    Phase::Transferring => self.after_write(),
                    Phase::Installing => (
                        FfuSession { phase: Phase::ExitingFfuMode, ..self },
                        ActionModel::Submit(restore_command()),
                    ),
                    Phase::ExitingFfuMode => match self.failure {
                        Some(failure) => self.fail_with(failure),
                        None => (
                            FfuSession { phase: Phase::Verifying, ..self },
                            ActionModel::Submit(read_ext_csd_command()),
                        ),
                    },
                    _ => self.after_verification(data),
                },
            },
        }
    }

    /// A step keeps the state one that a session can be in, and changes
    /// neither the image nor the limits.
    pub proof fn lemma_next_wf(self, event: EventModel)
        requires
            self.wf(),
        ensures
            self.next(event).0.wf(),
            self.next(event).0.image == self.image,
            self.next(event).0.config == self.config,
    {
        if self.phase is Transferring {
            let sector = self.sector();
            let total = self.total_chunks();
            let n = self.batch_len();
            lemma_padded_len(self.image@.len(), sector);
            assert((self.chunks_done + n) * sector == self.chunks_done * sector + n * sector)
                by (nonlinear_arith);
            assert((self.chunks_done + n) * sector <= total * sector) by (nonlinear_arith)
                requires
                    self.chunks_done + n <= total,
            ;
        }
    }

    /// A bound on the number of answers that the session still takes before
    /// the update is over.
    pub open spec fn rounds_left(self) -> nat {
        let most = chunk_count(self.image@.len(), 512);
        match self.phase {
            Phase::Idle => most + 7,
            Phase::Validating => most + 6,
            Phase::EnteringFfuMode => if self.confirming {
                most + 4
            } else {
                most + 5
            },
            Phase::Transferring => (self.total_chunks() - self.chunks_done + 3) as nat,
            Phase::Installing => 3,
            Phase::ExitingFfuMode => 2,
            Phase::Verifying => 1,
            Phase::Succeeded | Phase::Failed => 0,
        }
    }

    /// The update ends: every answer of the device brings a session that is
    /// under way closer to its end, and so does the start of an idle one.
    pub proof fn lemma_step_progress(self, event: EventModel)
        requires
            self.wf(),
            !(self.phase is Succeeded || self.phase is Failed),
            if self.phase is Idle {
                event is Start
            } else {
                !(event is Start)
            },
        ensures
            self.next(event).0.rounds_left() < self.rounds_left(),
    {
        self.lemma_next_wf(event);
        if self.capability is Some && self.capability->Some_0.sector_size_valid() {
            lemma_padded_len(self.image@.len(), self.sector());
            lemma_padded_len(self.image@.len(), 512);
        }
    }

    /// Success is never claimed without verification: the only step into
    /// `Succeeded` is the one out of `Verifying`, on a full register image
    /// that shows normal mode and a clean install status.
    pub proof fn lemma_success_is_verified(self, event: EventModel)
        requires
            !(self.phase is Succeeded),
            self.next(event).0.phase is Succeeded,
        ensures
            self.phase is Verifying,
            event is Completed,
            event->Completed_0.len() >= EXT_CSD_SIZE,
            mode_config_of(event->Completed_0) == EXT_CSD_NORMAL_MODE,
            ffu_status_of(event->Completed_0) == 0,
            self.next(event).1 == ActionModel::Finish(Outcome::Succeeded),
    {
    }

    /// A session for one update of a device with the given image.
    pub fn new(image: Vec<u8>, config: FfuConfig) -> (s: FfuSession)
        ensures
            s.is_fresh(),
            s.wf(),
            s.image == image,
            s.config == config,
    {
        FfuSession {
            image,
            config,
            phase: Phase::Idle,
            confirming: false,
            capability: None,
            chunks_done: 0,
            bytes_transferred: 0,
            failure: None,
            restore_error: None,
        }
    }

    /// Whether the state is one that a session can be in. It is, as long as
    /// the fields are changed by `step` alone.
    pub fn is_well_formed(&self) -> (ok: bool)
        ensures
            ok == self.wf(),
    {
        let needs_capability = match self.phase {
            Phase::EnteringFfuMode | Phase::Transferring | Phase::Installing => true,
            _ => false,
        };
        let capability_ok = match self.capability {
            Some(cap) => cap.sector_size == 512 || cap.sector_size == 4096,
            None => false,
        };
        if needs_capability && !capability_ok {
            return false;
        }
        let transfer_ok = match self.phase {
            Phase::Transferring => {
                let cap = self.capability.unwrap();
                proof {
                    lemma_padded_len(self.image@.len(), cap.sector_size as nat);
                }
                let total: u64 = count_chunks(self.image.len(), &cap);
                if check_image(self.image.len(), &cap, &self.config).is_err() {
                    false
                } else if self.chunks_done >= total {
                    false
                } else {
                    assert(self.chunks_done * cap.sector_size <= total * cap.sector_size)
                        by (nonlinear_arith)
                        requires
                            self.chunks_done <= total,
                    ;
                    self.bytes_transferred == self.chunks_done * (cap.sector_size as u64)
                }
            },
            _ => true,
        };
        let failed_ok = match self.phase {
            Phase::Failed => self.failure.is_some(),
            _ => true,
        };
        transfer_ok && failed_ok
    }

    /// Whether the update is over.
    pub fn is_finished(&self) -> (done: bool)
        ensures
            done == (self.phase is Succeeded || self.phase is Failed),
    {
        match self.phase {
            Phase::Succeeded | Phase::Failed => true,
            _ => false,
        }
    }

    fn finish_failed(&mut self, failure: Failure) -> (action: Action)
        ensures
            (*final(self), action@) == old(self).fail_with(failure),
    {
        self.phase = Phase::Failed;
        self.failure = Some(failure);
        Action::Finish(Outcome::Failed { failure, restore_error: self.restore_error })
    }

    fn begin_restore(&mut self, failure: Failure) -> (action: Action)
        ensures
            (*final(self), action@) == old(self).restore_after(failure),
    {
        self.phase = Phase::ExitingFfuMode;
        self.confirming = false;
        self.failure = Some(failure);
        Action::Submit(build_switch(EXT_CSD_MODE_CONFIG, EXT_CSD_NORMAL_MODE, AccessMode::WriteByte))
    }

    fn begin_install(&mut self) -> (action: Action)
        ensures
            *final(self) == (FfuSession { phase: Phase::Installing, ..*old(self) }),
            action@ == ActionModel::Submit(install_command()),
    {
        self.phase = Phase::Installing;
        Action::Submit(
            build_switch(EXT_CSD_MODE_OPERATION_CODES, EXT_CSD_FFU_INSTALL, AccessMode::WriteByte),
        )
    }

    fn next_transfer(&self) -> (action: Action)
        requires
            self.wf(),
            self.phase is Transferring,
        ensures
            action@ == self.transfer_action(),
    {
        let cap = self.capability.unwrap();
        if self.config.max_batch >= 2 {
            let total: u64 = count_chunks(self.image.len(), &cap);
            let remaining: u64 = total - self.chunks_done;
            let n: u64 = if remaining < self.config.max_batch as u64 {
                remaining
            } else {
                self.config.max_batch as u64
            };
            Action::SubmitBatch(build_chunks(&self.image, &cap, self.chunks_done, n))
        } else {
            Action::Submit(build_chunk(&self.image, &cap, self.chunks_done))
        }
    }

    fn validated(&mut self, data: &Vec<u8>) -> (action: Action)
        requires
            old(self).phase is Validating,
        ensures
            (*final(self), action@) == old(self).after_validation(data@),
            final(self).wf(),
    {
        match ExtCsdImage::from_bytes(data) {
            Err(_) => self.finish_failed(Failure::Register(FfuError::ShortRead)),
            Ok(registers) => {
                let cap = registers.capability();
                assert(cap == capability_of(data@));
                self.capability = Some(cap);
                match cap.validate() {
                    Err(v) => self.finish_failed(Failure::Validation(v)),
                    Ok(_) => {
                        self.phase = Phase::EnteringFfuMode;
                        self.confirming = false;
                        Action::Submit(
                            build_switch(
                                EXT_CSD_MODE_CONFIG,
                                EXT_CSD_FFU_MODE,
                                AccessMode::WriteByte,
                            ),
                        )
                    },
                }
            },
        }
    }

    fn confirmed(&mut self, data: &Vec<u8>) -> (action: Action)
        requires
            old(self).wf(),
            old(self).phase is EnteringFfuMode,
        ensures
            (*final(self), action@) == old(self).after_confirmation(data@),
            final(self).wf(),
    {
        match ExtCsdImage::from_bytes(data) {
            Err(_) => self.begin_restore(Failure::Register(FfuError::ShortRead)),
            Ok(registers) => {
                if registers.mode_config() != EXT_CSD_FFU_MODE {
                    return self.begin_restore(Failure::ModeNotEntered);
                }
                let cap = self.capability.unwrap();
                match check_image(self.image.len(), &cap, &self.config) {
                    Err(e) => self.begin_restore(Failure::Transfer(e)),
                    Ok(_) => {
                        self.confirming = false;
                        self.chunks_done = 0;
                        self.bytes_transferred = 0;
                        if count_chunks(self.image.len(), &cap) == 0 {
                            self.begin_install()
                        } else {
                            self.phase = Phase::Transferring;
                            self.next_transfer()
                        }
                    },
                }
            },
        }
    }

    fn written(&mut self) -> (action: Action)
        requires
            old(self).wf(),
            old(self).phase is Transferring,
        ensures
            (*final(self), action@) == old(self).after_write(),
            final(self).wf(),
    {
        let cap = self.capability.unwrap();
        let total: u64 = count_chunks(self.image.len(), &cap);
        let remaining: u64 = total - self.chunks_done;
        let n: u64 = if self.config.max_batch >= 2 {
            if remaining < self.config.max_batch as u64 {
                remaining
            } else {
                self.config.max_batch as u64
            }
        } else {
            1
        };
        proof {
            lemma_padded_len(self.image@.len(), cap.sector_size as nat);
            assert(n == self.batch_len());
            assert((self.chunks_done + n) * cap.sector_size == self.chunks_done * cap.sector_size
                + n * cap.sector_size) by (nonlinear_arith);
            assert((self.chunks_done + n) * cap.sector_size <= total * cap.sector_size)
                by (nonlinear_arith)
                requires
                    self.chunks_done + n <= total,
            ;
        }
        self.chunks_done = self.chunks_done + n;
        self.bytes_transferred = self.bytes_transferred + n * (cap.sector_size as u64);
        if self.chunks_done >= total {
            self.begin_install()
        } else {
            self.next_transfer()
        }
    }

    fn verified(&mut self, data: &Vec<u8>) -> (action: Action)
        ensures
            (*final(self), action@) == old(self).after_verification(data@),
    {
        match ExtCsdImage::from_bytes(data) {
            Err(_) => self.finish_failed(Failure::Register(FfuError::ShortRead)),
            Ok(registers) => {
                if registers.mode_config() == EXT_CSD_NORMAL_MODE && registers.ffu_status() == 0 {
                    self.phase = Phase::Succeeded;
                    Action::Finish(Outcome::Succeeded)
                } else {
                    self.finish_failed(Failure::Verification)
                }
            },
        }
    }

    fn rejected(&mut self, e: TransportError) -> (action: Action)
        requires
            !(old(self).phase is Idle),
            !(old(self).phase is Succeeded),
            !(old(self).phase is Failed),
        ensures
            (*final(self), action@) == old(self).next(EventModel::Rejected(e)),
    {
        match self.phase {
            Phase::EnteringFfuMode => {
                if self.confirming {
                    self.begin_restore(Failure::Register(FfuError::RegisterReadFailed(e)))
                } else {
                    self.begin_restore(Failure::Switch(e))
                }
            },
            Phase::Transferring => self.begin_restore(
                Failure::Transfer(FfuError::TransferFailed(e)),
            ),
            Phase::Installing => self.begin_restore(Failure::Install(e)),
            Phase::ExitingFfuMode => {
                let failure = match self.failure {
                    Some(f) => f,
                    None => Failure::Restore(e),
                };
                self.phase = Phase::Failed;
                self.failure = Some(failure);
                self.restore_error = Some(e);
                Action::Finish(Outcome::Failed { failure, restore_error: Some(e) })
            },
            _ => self.finish_failed(Failure::Register(FfuError::RegisterReadFailed(e))),
        }
    }

    fn completed(&mut self, data: &Vec<u8>) -> (action: Action)
        requires
            old(self).wf(),
            !(old(self).phase is Idle),
            !(old(self).phase is Succeeded),
            !(old(self).phase is Failed),
        ensures
            (*final(self), action@) == old(self).next(EventModel::Completed(data@)),
            final(self).wf(),
    {
        match self.phase {
            Phase::Validating => self.validated(data),
            Phase::EnteringFfuMode => {
                if self.confirming {
                    self.confirmed(data)
                } else {
                    self.confirming = true;
                    Action::Submit(build_read_ext_csd())
                }
            },
            Phase::Transferring => self.written(),
            Phase::Installing => {
                self.phase = Phase::ExitingFfuMode;
                Action::Submit(
                    build_switch(EXT_CSD_MODE_CONFIG, EXT_CSD_NORMAL_MODE, AccessMode::WriteByte),
                )
            },
            Phase::ExitingFfuMode => match self.failure {
                Some(failure) => self.finish_failed(failure),
                None => {
                    self.phase = Phase::Verifying;
                    Action::Submit(build_read_ext_csd())
                },
            },
            _ => self.verified(data),
        }
    }

    /// Takes one event and says what to do next, as `next` defines it. The
    /// state stays one that a session can be in.
    pub fn step(&mut self, event: Event) -> (action: Action)
        requires
            old(self).wf(),
        ensures
            (*final(self), action@) == old(self).next(event@),
            final(self).wf(),
    {
        match self.phase {
            Phase::Idle => match event {
                Event::Start => {
                    self.phase = Phase::Validating;
                    Action::Submit(build_read_ext_csd())
                },
                _ => Action::Wait,
            },
            Phase::Succeeded => Action::Finish(Outcome::Succeeded),
            Phase::Failed => {
                let failure = self.failure.unwrap();
                Action::Finish(Outcome::Failed { failure, restore_error: self.restore_error })
            },
            _ => match event {
                Event::Start => Action::Wait,
                Event::Rejected(e) => self.rejected(e),
                Event::Completed(data) => self.completed(&data),
            },
        }
    }
}

} // verus!
