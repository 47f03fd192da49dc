//! What the transport checks of a submission before it hands it to the device.

use vstd::prelude::*;
use crate::command::{CommandModel, MmcIocMultiCmd, RawCommand};
use crate::error::TransportError;
use crate::writer::FfuConfig;

verus! {

/// A command is well-formed for a transport: its data is what its block
/// geometry says, and no more than the transport takes in one command.
pub open spec fn command_valid(cmd: CommandModel, max_command_bytes: u32) -> bool {
    cmd.data.len() <= max_command_bytes && cmd.data.len() == cmd.blksz * cmd.blocks
}

/// What stands against the submission of a batch, if anything: a transport
/// without batches does not support it; an empty batch, one with more
/// commands than the transport takes, and one with a malformed command are
/// invalid.
pub open spec fn batch_check(batch: Seq<CommandModel>, config: FfuConfig) -> Result<
    (),
    TransportError,
> {
    if config.max_batch < 2 {
        Err(TransportError::NotSupported)
    } else if batch.len() == 0 || batch.len() > config.max_batch {
        Err(TransportError::InvalidArgument)
    } else if exists|i: int|
        0 <= i < batch.len() && !command_valid(#[trigger] batch[i], config.max_command_bytes) {
        Err(TransportError::InvalidArgument)
    } else {
        Ok(())
    }
}

/// Checks one command before its submission: a malformed command is an
/// invalid argument.
pub fn check_command(cmd: &RawCommand, max_command_bytes: u32) -> (r: Result<(), TransportError>)
    ensures
        command_valid(cmd@, max_command_bytes) ==> r is Ok,
        !command_valid(cmd@, max_command_bytes) ==> r == Err::<(), TransportError>(
            TransportError::InvalidArgument,
        ),
{
    assert(cmd.blksz * cmd.blocks <= 0xffff_ffff * 0xffff_ffff) by (nonlinear_arith)
        requires
            cmd.blksz <= 0xffff_ffff,
            cmd.blocks <= 0xffff_ffff,
    ;
    let expected: u64 = cmd.blksz as u64 * cmd.blocks as u64;
    let len: u64 = cmd.data.len() as u64;
    if len <= max_command_bytes as u64 && len == expected {
        Ok(())
    } else {
        Err(TransportError::InvalidArgument)
    }
}

/// Checks a batch before its submission.
pub fn check_batch(batch: &MmcIocMultiCmd, config: &FfuConfig) -> (r: Result<(), TransportError>)
    ensures
        r == batch_check(batch@, *config),
{
    if config.max_batch < 2 {
        return Err(TransportError::NotSupported);
    }
    let n: usize = batch.len();
    if n == 0 || n as u64 > config.max_batch as u64 {
        return Err(TransportError::InvalidArgument);
    }
    let mut i: usize = 0;
    while i < n
        invariant
            i <= n,
            config.max_batch >= 2,
            0 < n <= config.max_batch,
            n == batch@.len(),
            n == batch.cmds@.len(),
            forall|k: int| 0 <= k < i ==> command_valid(#[trigger] batch@[k], config.max_command_bytes),
        decreases n - i,
    {
        assert(batch@[i as int] == batch.cmds@[i as int]@);
        if check_command(&batch.cmds[i], config.max_command_bytes).is_err() {
            assert(!command_valid(batch@[i as int], config.max_command_bytes));
            return Err(TransportError::InvalidArgument);
        }
        i += 1;
    }
    Ok(())
}

} // verus!
