//! Error values of the layers, narrow below and classified at the top.

use vstd::prelude::*;

verus! {

/// Why the transport did not complete a submission.
#[derive(Clone, Copy, Debug, PartialEq, Eq)]
pub enum TransportError {
    DeviceBusy,
    NotSupported,
    IoFailure,
    InvalidArgument,
}

/// Errors of the register reader and of the block writer.
#[derive(Clone, Copy, Debug, PartialEq, Eq)]
pub enum FfuError {
    /// The transport failed while the register set was read.
    RegisterReadFailed(TransportError),
    /// Fewer than 512 register bytes came back.
    ShortRead,
    /// The transport failed while firmware was written.
    TransferFailed(TransportError),
    /// The image is larger than the device accepts.
    ImageTooLarge,
}

/// The precondition of an update that a device does not meet.
#[derive(Clone, Copy, Debug, PartialEq, Eq)]
pub enum ValidationError {
    RevisionTooOld,
    FfuNotSupported,
    UpdateDisabled,
}

/// The classes of failure that a caller tells apart.
#[derive(Clone, Copy, Debug, PartialEq, Eq)]
pub enum ErrorKind {
    Validation,
    Transport,
    Transfer,
    Install,
    Verification,
}

/// What made an update fail.
#[derive(Clone, Copy, Debug, PartialEq, Eq)]
pub enum Failure {
    /// The device does not support an update or forbids it.
    Validation(ValidationError),
    /// The register set could not be read.
    Register(FfuError),
    /// The switch into FFU mode was rejected.
    Switch(TransportError),
    /// The switch into FFU mode was acknowledged but the mode byte does not show it.
    ModeNotEntered,
    /// The firmware could not be written.
    Transfer(FfuError),
    /// The install request was rejected.
    Install(TransportError),
    /// The switch back to normal mode was rejected after an otherwise clean run.
    Restore(TransportError),
    /// After the update the device is not in normal mode or reports a failed install.
    Verification,
}

impl Failure {
    /// The class of this failure.
    pub open spec fn kind_spec(self) -> ErrorKind {
        match self {
            Failure::Validation(_) => ErrorKind::Validation,
            Failure::Register(_) => ErrorKind::Transport,
            Failure::Switch(_) => ErrorKind::Transport,
            Failure::ModeNotEntered => ErrorKind::Transport,
            Failure::Transfer(_) => ErrorKind::Transfer,
            Failure::Install(_) => ErrorKind::Install,
            Failure::Restore(_) => ErrorKind::Transport,
            Failure::Verification => ErrorKind::Verification,
        }
    }

    /// The class of this failure.
    pub fn kind(&self) -> (k: ErrorKind)
        ensures
            k == self.kind_spec(),
    {
        match self {
            Failure::Validation(_) => ErrorKind::Validation,
            Failure::Register(_) => ErrorKind::Transport,
            Failure::Switch(_) => ErrorKind::Transport,
            Failure::ModeNotEntered => ErrorKind::Transport,
            Failure::Transfer(_) => ErrorKind::Transfer,
            Failure::Install(_) => ErrorKind::Install,
            Failure::Restore(_) => ErrorKind::Transport,
            Failure::Verification => ErrorKind::Verification,
        }
    }
}

impl ErrorKind {
    /// The process exit status of a failure of this class.
    pub open spec fn exit_code_spec(self) -> i32 {
        match self {
            ErrorKind::Validation => 2,
            ErrorKind::Transport => 3,
            ErrorKind::Transfer => 4,
            ErrorKind::Install => 5,
            ErrorKind::Verification => 6,
        }
    }

    /// The process exit status of a failure of this class: never zero, and
    /// different for different classes.
    pub fn exit_code(&self) -> (code: i32)
        ensures
            code == self.exit_code_spec(),
            code != 0,
    {
        match self {
            ErrorKind::Validation => 2,
            ErrorKind::Transport => 3,
            ErrorKind::Transfer => 4,
            ErrorKind::Install => 5,
            ErrorKind::Verification => 6,
        }
    }
}

} // verus!
