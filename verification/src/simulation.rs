//! A model of how the commands of an update act on a device's operating
//! mode, and what holds of every run of the state machine against it,
//! whatever the device answers.

use vstd::prelude::*;
use crate::command::{
    lemma_switch_arg_fields, read_ext_csd_command, switch_arg_index, switch_arg_value,
    AccessMode, CommandModel,
};
use crate::constants::{
    EXT_CSD_FFU_INSTALL, EXT_CSD_FFU_MODE, EXT_CSD_MODE_CONFIG, EXT_CSD_MODE_OPERATION_CODES,
    EXT_CSD_NORMAL_MODE, EXT_CSD_SIZE, MMC_SWITCH, MMC_WRITE_BLOCK,
};
use crate::error::{Failure, FfuError};
use crate::ext_csd::{capability_of, DeviceCapability};
use crate::orchestrator::{
    enter_ffu_command, install_command, restore_command, ActionModel, EventModel, FfuSession,
    Outcome, Phase,
};
use crate::transport::{batch_check, command_valid};
use crate::writer::{
    chunk_command, chunk_commands, lemma_chunk_is_one_sector, lemma_padded_image,
    lemma_padded_len, lemma_written_range, padded_image, padded_len, transfer_check,
    written_bytes, FfuConfig,
};

verus! {

/// The operating mode of a device after it has carried out a command: a
/// SWITCH of the mode byte sets it, nothing else changes it.
pub open spec fn mode_after(mode: u8, cmd: CommandModel) -> u8 {
    if cmd.opcode == MMC_SWITCH && switch_arg_index(cmd.arg) == EXT_CSD_MODE_CONFIG {
        switch_arg_value(cmd.arg)
    } else {
        mode
    }
}

/// The operating mode after a list of commands, carried out in order.
pub open spec fn mode_after_all(mode: u8, cmds: Seq<CommandModel>) -> u8
    decreases cmds.len(),
{
    if cmds.len() == 0 {
        mode
    } else {
        mode_after(mode_after_all(mode, cmds.drop_last()), cmds.last())
    }
}

/// The commands that an action hands to the transport.
pub open spec fn commands_of(action: ActionModel) -> Seq<CommandModel> {
    match action {
        ActionModel::Submit(cmd) => seq![cmd],
        ActionModel::SubmitBatch(cmds) => cmds,
        _ => Seq::empty(),
    }
}

/// A state machine together with the device that it drives.
pub struct Run {
    pub session: FfuSession,
    /// The submission that the device has not answered yet.
    pub pending: ActionModel,
    /// The device's operating mode.
    pub mode: u8,
    /// Every command handed to the transport so far.
    pub submitted: Seq<CommandModel>,
}

/// The beginning of a run: nothing submitted, the device in the given mode.
pub open spec fn begin(session: FfuSession, mode: u8) -> Run {
    Run { session, pending: ActionModel::Wait, mode, submitted: Seq::empty() }
}

/// One round: the device answers the pending submission, which takes effect
/// only if it completed, and the state machine takes the answer.
pub open spec fn advance(run: Run, event: EventModel) -> Run {
    let (session, action) = run.session.next(event);
    Run {
        session,
        pending: if action is Wait {
            run.pending
        } else {
            action
        },
        mode: if event is Completed {
            mode_after_all(run.mode, commands_of(run.pending))
        } else {
            run.mode
        },
        submitted: run.submitted + commands_of(action),
    }
}

/// A run after a sequence of events.
pub open spec fn run_all(run: Run, events: Seq<EventModel>) -> Run
    decreases events.len(),
{
    if events.len() == 0 {
        run
    } else {
        advance(run_all(run, events.drop_last()), events.last())
    }
}

/// No command of the list writes to the device.
pub open spec fn no_writes(cmds: Seq<CommandModel>) -> bool {
    forall|i: int| 0 <= i < cmds.len() ==> !(#[trigger] cmds[i]).write_flag
}

/// No command of the list transfers firmware.
pub open spec fn no_transfers(cmds: Seq<CommandModel>) -> bool {
    forall|i: int| 0 <= i < cmds.len() ==> (#[trigger] cmds[i]).opcode != MMC_WRITE_BLOCK
}

/// The firmware bytes that the commands of the list write, in order.
pub open spec fn transferred(cmds: Seq<CommandModel>) -> Seq<u8>
    decreases cmds.len(),
{
    if cmds.len() == 0 {
        Seq::empty()
    } else if cmds.last().opcode == MMC_WRITE_BLOCK {
        transferred(cmds.drop_last()) + cmds.last().data
    } else {
        transferred(cmds.drop_last())
    }
}

/// Every command of the list is well-formed for the transport.
pub open spec fn all_valid(cmds: Seq<CommandModel>, max_command_bytes: u32) -> bool {
    forall|i: int| 0 <= i < cmds.len() ==> command_valid(#[trigger] cmds[i], max_command_bytes)
}

/// The switch back to normal mode is among the commands of the list.
pub open spec fn restore_attempted(cmds: Seq<CommandModel>) -> bool {
    exists|i: int| 0 <= i < cmds.len() && #[trigger] cmds[i] == restore_command()
}

/// What holds of every run that began with a fresh session and a device in
/// normal mode.
pub open spec fn consistent(run: Run) -> bool {
    let s = run.session;
    &&& s.wf()
    &&& s.image@.len() > s.config.max_firmware_bytes ==> no_transfers(run.submitted)
    &&& s.config.max_command_bytes >= EXT_CSD_SIZE ==> all_valid(
        run.submitted,
        s.config.max_command_bytes,
    )
    &&& (s.failure is Some && s.failure->Some_0 is Validation) ==> no_writes(run.submitted)
    &&& match s.phase {
        Phase::Idle | Phase::Validating | Phase::EnteringFfuMode => transferred(run.submitted)
            == Seq::<u8>::empty(),
        Phase::Transferring => transferred(run.submitted) == padded_image(
            s.image@,
            s.sector(),
        ).subrange(0, (s.chunks_done + s.batch_len()) * s.sector()),
        Phase::Failed => true,
        _ => {
            &&& s.capability is Some
            &&& s.capability->Some_0.sector_size_valid()
            &&& s.failure is None ==> transferred(run.submitted) == padded_image(
                s.image@,
                s.sector(),
            )
        },
    }
    &&& match s.phase {
        Phase::Idle => {
            &&& run.pending is Wait
            &&& run.mode == EXT_CSD_NORMAL_MODE
            &&& run.submitted.len() == 0
            &&& s.failure is None
            &&& s.restore_error is None
        },
        Phase::Validating => {
            &&& run.pending == ActionModel::Submit(read_ext_csd_command())
            &&& run.mode == EXT_CSD_NORMAL_MODE
            &&& no_writes(run.submitted)
            &&& s.failure is None
            &&& s.restore_error is None
        },
        Phase::EnteringFfuMode => {
            &&& s.failure is None
            &&& s.restore_error is None
            &&& if s.confirming {
                run.pending == ActionModel::Submit(read_ext_csd_command())
            } else {
                run.pending == ActionModel::Submit(enter_ffu_command()) && run.mode
                    == EXT_CSD_NORMAL_MODE
            }
        },
        Phase::Transferring => {
            &&& run.pending == s.transfer_action()
            &&& s.failure is None
            &&& s.restore_error is None
        },
        Phase::Installing => {
            &&& run.pending == ActionModel::Submit(install_command())
            &&& s.failure is None
            &&& s.restore_error is None
        },
        Phase::ExitingFfuMode => {
            &&& run.pending == ActionModel::Submit(restore_command())
            &&& restore_attempted(run.submitted)
            &&& s.restore_error is None
            &&& s.failure is Some ==> !(s.failure->Some_0 is Validation)
        },
        Phase::Verifying => {
            &&& run.pending == ActionModel::Submit(read_ext_csd_command())
            &&& restore_attempted(run.submitted)
            &&& run.mode == EXT_CSD_NORMAL_MODE
            &&& s.failure is None
            &&& s.restore_error is None
        },
        Phase::Succeeded => {
            &&& run.pending == ActionModel::Finish(Outcome::Succeeded)
            &&& restore_attempted(run.submitted)
            &&& run.mode == EXT_CSD_NORMAL_MODE
            &&& s.failure is None
            &&& s.restore_error is None
        },
        Phase::Failed => {
            &&& run.pending == ActionModel::Finish(s.outcome())
            &&& no_writes(run.submitted) || restore_attempted(run.submitted)
            &&& run.mode == EXT_CSD_NORMAL_MODE || s.restore_error is Some
        },
    }
}

proof fn lemma_mode_after_one(mode: u8, cmd: CommandModel)
    ensures
        mode_after_all(mode, seq![cmd]) == mode_after(mode, cmd),
{
    let cmds = seq![cmd];
    assert(cmds.drop_last().len() == 0);
    assert(mode_after_all(mode, cmds.drop_last()) == mode);
    assert(cmds.last() == cmd);
}

proof fn lemma_mode_after_chunks(
    mode: u8,
    image: Seq<u8>,
    cap: DeviceCapability,
    first: nat,
    n: nat,
)
    ensures
        mode_after_all(mode, chunk_commands(image, cap, first, n)) == mode,
    decreases n,
{
    let cmds = chunk_commands(image, cap, first, n);
    if n > 0 {
        lemma_mode_after_chunks(mode, image, cap, first, (n - 1) as nat);
        assert(cmds.drop_last() =~= chunk_commands(image, cap, first, (n - 1) as nat));
        assert(cmds.last().opcode == MMC_WRITE_BLOCK);
    }
}

proof fn lemma_switch_effects(mode: u8)
    ensures
        mode_after(mode, restore_command()) == EXT_CSD_NORMAL_MODE,
        mode_after(mode, enter_ffu_command()) == EXT_CSD_FFU_MODE,
        mode_after(mode, install_command()) == mode,
        mode_after(mode, read_ext_csd_command()) == mode,
{
    lemma_switch_arg_fields(EXT_CSD_MODE_CONFIG, EXT_CSD_NORMAL_MODE, AccessMode::WriteByte);
    lemma_switch_arg_fields(EXT_CSD_MODE_CONFIG, EXT_CSD_FFU_MODE, AccessMode::WriteByte);
    lemma_switch_arg_fields(
        EXT_CSD_MODE_OPERATION_CODES,
        EXT_CSD_FFU_INSTALL,
        AccessMode::WriteByte,
    );
}

proof fn lemma_pending_effect(run: Run)
    requires
        consistent(run),
    ensures
        run.session.phase is ExitingFfuMode ==> mode_after_all(run.mode, commands_of(run.pending))
            == EXT_CSD_NORMAL_MODE,
        !(run.session.phase is ExitingFfuMode) && !(run.session.phase is EnteringFfuMode
            && !run.session.confirming) ==> mode_after_all(run.mode, commands_of(run.pending))
            == run.mode,
{
    let s = run.session;
    lemma_switch_effects(run.mode);
    match run.pending {
        ActionModel::Submit(cmd) => {
            lemma_mode_after_one(run.mode, cmd);
        },
        ActionModel::SubmitBatch(cmds) => {
            lemma_mode_after_chunks(
                run.mode,
                s.image@,
                s.capability->Some_0,
                s.chunks_done as nat,
                s.batch_len(),
            );
        },
        _ => {},
    }
}

/// What the state machine submits during the transfer is well-formed for
/// the transport that the limits describe: a single command carries one
/// sector that fits, and a batch holds between one command and as many as
/// the transport takes, each of them one sector that fits.
pub proof fn lemma_transfer_submission_valid(session: FfuSession)
    requires
        session.wf(),
        session.phase is Transferring,
    ensures
        match session.transfer_action() {
            ActionModel::Submit(cmd) => command_valid(cmd, session.config.max_command_bytes),
            ActionModel::SubmitBatch(batch) => batch_check(batch, session.config) is Ok,
            _ => false,
        },
        all_valid(commands_of(session.transfer_action()), session.config.max_command_bytes),
{
    let cap = session.capability->Some_0;
    let first = session.chunks_done as nat;
    lemma_padded_len(session.image@.len(), cap.sector_size as nat);
    match session.transfer_action() {
        ActionModel::Submit(cmd) => {
            lemma_chunk_is_one_sector(session.image@, cap, first);
        },
        ActionModel::SubmitBatch(batch) => {
            assert forall|i: int| 0 <= i < batch.len() implies command_valid(
                #[trigger] batch[i],
                session.config.max_command_bytes,
            ) by {
                lemma_chunk_is_one_sector(session.image@, cap, (first + i) as nat);
            }
        },
        _ => {},
    }
}

proof fn lemma_transferred_concat(before: Seq<CommandModel>, more: Seq<CommandModel>)
    ensures
        transferred(before + more) == transferred(before) + transferred(more),
    decreases more.len(),
{
    if more.len() == 0 {
        assert(before + more =~= before);
        assert(transferred(before) + transferred(more) =~= transferred(before));
    } else {
        lemma_transferred_concat(before, more.drop_last());
        assert((before + more).drop_last() =~= before + more.drop_last());
        assert((before + more).last() == more.last());
        if more.last().opcode == MMC_WRITE_BLOCK {
            assert(transferred(before + more) =~= transferred(before) + transferred(more));
        }
    }
}

proof fn lemma_transferred_one(cmd: CommandModel)
    ensures
        transferred(seq![cmd]) == if cmd.opcode == MMC_WRITE_BLOCK {
            cmd.data
        } else {
            Seq::<u8>::empty()
        },
{
    let cmds = seq![cmd];
    assert(cmds.drop_last().len() == 0);
    assert(transferred(cmds.drop_last()) =~= Seq::<u8>::empty());
    assert(cmds.last() == cmd);
    assert(Seq::<u8>::empty() + cmd.data =~= cmd.data);
}

proof fn lemma_transferred_chunks(image: Seq<u8>, cap: DeviceCapability, first: nat, n: nat)
    ensures
        transferred(chunk_commands(image, cap, first, n)) == written_bytes(
            chunk_commands(image, cap, first, n),
        ),
    decreases n,
{
    let cmds = chunk_commands(image, cap, first, n);
    if n > 0 {
        lemma_transferred_chunks(image, cap, first, (n - 1) as nat);
        assert(cmds.drop_last() =~= chunk_commands(image, cap, first, (n - 1) as nat));
        assert(cmds.last().opcode == MMC_WRITE_BLOCK);
    }
}

/// During the transfer, the pending submission writes the next sectors of
/// the padded image.
proof fn lemma_transfer_action_bytes(session: FfuSession)
    requires
        session.wf(),
        session.phase is Transferring,
    ensures
        0 <= session.chunks_done * session.sector() <= (session.chunks_done
            + session.batch_len()) * session.sector() <= padded_image(
            session.image@,
            session.sector(),
        ).len(),
        session.chunks_done + session.batch_len() <= session.total_chunks(),
        transferred(commands_of(session.transfer_action())) == padded_image(
            session.image@,
            session.sector(),
        ).subrange(
            (session.chunks_done * session.sector()) as int,
            ((session.chunks_done + session.batch_len()) * session.sector()) as int,
        ),
{
    let cap = session.capability->Some_0;
    let first = session.chunks_done as nat;
    let n = session.batch_len();
    lemma_written_range(session.image@, cap, first, n);
    lemma_transferred_chunks(session.image@, cap, first, n);
    if session.config.max_batch < 2 {
        assert(seq![chunk_command(session.image@, cap, first)] =~= chunk_commands(
            session.image@,
            cap,
            first,
            1,
        ));
    }
}

/// Whatever a step hands out is well-formed for a transport that takes at
/// least a register read in one command.
proof fn lemma_action_valid(session: FfuSession, event: EventModel)
    requires
        session.wf(),
        session.config.max_command_bytes >= EXT_CSD_SIZE,
    ensures
        all_valid(commands_of(session.next(event).1), session.config.max_command_bytes),
{
    let (after, action) = session.next(event);
    let max = session.config.max_command_bytes;
    session.lemma_next_wf(event);
    assert(command_valid(read_ext_csd_command(), max));
    assert(command_valid(enter_ffu_command(), max));
    assert(command_valid(install_command(), max));
    assert(command_valid(restore_command(), max));
    if after.phase is Transferring {
        lemma_transfer_submission_valid(after);
    }
}

proof fn lemma_attempt_kept(before: Seq<CommandModel>, more: Seq<CommandModel>)
    requires
        restore_attempted(before),
    ensures
        restore_attempted(before + more),
{
    let i = choose|i: int| 0 <= i < before.len() && #[trigger] before[i] == restore_command();
    assert((before + more)[i] == restore_command());
}

proof fn lemma_attempt_made(before: Seq<CommandModel>)
    ensures
        restore_attempted(before + seq![restore_command()]),
{
    assert((before + seq![restore_command()])[before.len() as int] == restore_command());
}

/// One round keeps a run consistent.
pub proof fn lemma_advance_consistent(run: Run, event: EventModel)
    requires
        consistent(run),
    ensures
        consistent(advance(run, event)),
{
    let after = advance(run, event);
    let (session, action) = run.session.next(event);
    lemma_pending_effect(run);
    lemma_switch_effects(run.mode);
    run.session.lemma_next_wf(event);
    if restore_attempted(run.submitted) {
        lemma_attempt_kept(run.submitted, commands_of(action));
    }
    if action == ActionModel::Submit(restore_command()) {
        lemma_attempt_made(run.submitted);
    }
    lemma_transferred_concat(run.submitted, commands_of(action));
    if session.config.max_command_bytes >= EXT_CSD_SIZE {
        lemma_action_valid(run.session, event);
        assert(all_valid(after.submitted, session.config.max_command_bytes));
    }
    if !(action is Wait) && session.capability is Some
        && session.capability->Some_0.sector_size_valid() {
        let s = session.sector();
        let padded = padded_image(session.image@, s);
        lemma_padded_image(session.image@, s);
        lemma_padded_len(session.image@.len(), s);
        if session.phase is Transferring {
            lemma_transfer_action_bytes(session);
            let done = session.chunks_done * s;
            let next = (session.chunks_done + session.batch_len()) * s;
            assert(padded.subrange(0, done as int) + padded.subrange(done as int, next as int)
                =~= padded.subrange(0, next as int));
            assert(padded.subrange(0, 0) =~= Seq::<u8>::empty());
            if run.session.phase is Transferring {
                lemma_transfer_action_bytes(run.session);
                assert((run.session.chunks_done + run.session.batch_len()) * s == done);
            } else {
                assert(done == 0);
            }
        } else if session.phase is Installing {
            if run.session.phase is Transferring {
                assert(run.session.chunks_done + run.session.batch_len()
                    == run.session.total_chunks()) by {
                    lemma_transfer_action_bytes(run.session);
                }
                assert(padded.subrange(0, padded.len() as int) =~= padded);
            } else {
                assert(padded =~= Seq::<u8>::empty());
            }
        }
    }
    match action {
        ActionModel::Submit(cmd) => {
            lemma_transferred_one(cmd);
            assert(transferred(run.submitted) + Seq::<u8>::empty() =~= transferred(
                run.submitted,
            ));
            assert(commands_of(action) =~= seq![cmd]);
            assert(cmd.opcode != MMC_WRITE_BLOCK || session.phase is Transferring);
            assert(!cmd.write_flag ==> cmd == read_ext_csd_command());
        },
        ActionModel::SubmitBatch(cmds) => {
            assert(session.phase is Transferring);
        },
        _ => {
            assert(after.submitted =~= run.submitted);
        },
    }
    assert(Seq::<u8>::empty() + transferred(commands_of(action)) =~= transferred(
        commands_of(action),
    ));
}

/// Every run that begins with a fresh session and a device in normal mode
/// is consistent throughout.
pub proof fn lemma_run_consistent(session: FfuSession, events: Seq<EventModel>)
    requires
        session.is_fresh(),
    ensures
        consistent(run_all(begin(session, EXT_CSD_NORMAL_MODE), events)),
    decreases events.len(),
{
    if events.len() > 0 {
        lemma_run_consistent(session, events.drop_last());
        lemma_advance_consistent(
            run_all(begin(session, EXT_CSD_NORMAL_MODE), events.drop_last()),
            events.last(),
        );
    }
}

/// Whatever the device answers and wherever the transport fails: once the
/// update is over, the device is in normal mode, unless the switch back to
/// normal mode was itself rejected, and then the outcome reports that error
/// beside the first one.
pub proof fn lemma_mode_restored(session: FfuSession, events: Seq<EventModel>)
    requires
        session.is_fresh(),
    ensures
        ({
            let end = run_all(begin(session, EXT_CSD_NORMAL_MODE), events);
            &&& end.session.phase is Succeeded ==> end.mode == EXT_CSD_NORMAL_MODE && end.pending
                == ActionModel::Finish(Outcome::Succeeded)
            &&& end.session.phase is Failed ==> end.mode == EXT_CSD_NORMAL_MODE || (
            end.session.restore_error is Some && end.pending == ActionModel::Finish(
                Outcome::Failed {
                    failure: end.session.failure->Some_0,
                    restore_error: end.session.restore_error,
                },
            ))
        }),
{
    lemma_run_consistent(session, events);
}

/// Every way out attempts the switch back to normal mode: once the update is
/// over, either no command that writes to the device was submitted at all, or
/// the switch back to normal mode was.
pub proof fn lemma_restore_attempted(session: FfuSession, events: Seq<EventModel>)
    requires
        session.is_fresh(),
    ensures
        ({
            let end = run_all(begin(session, EXT_CSD_NORMAL_MODE), events);
            end.session.phase is Succeeded || end.session.phase is Failed ==> no_writes(
                end.submitted,
            ) || restore_attempted(end.submitted)
        }),
{
    lemma_run_consistent(session, events);
}

/// A successful update has written the whole image and nothing else: the
/// firmware bytes submitted are the image, followed by zero bytes up to the
/// next sector boundary.
pub proof fn lemma_written_image(session: FfuSession, events: Seq<EventModel>)
    requires
        session.is_fresh(),
    ensures
        ({
            let end = run_all(begin(session, EXT_CSD_NORMAL_MODE), events);
            let written = transferred(end.submitted);
            end.session.phase is Succeeded ==> {
                &&& written == padded_image(session.image@, end.session.sector())
                &&& written.len() == padded_len(session.image@.len(), end.session.sector())
                &&& session.image@.len() <= written.len() < session.image@.len()
                    + end.session.sector()
                &&& written.len() % end.session.sector() == 0
                &&& written.subrange(0, session.image@.len() as int) == session.image@
                &&& forall|i: int| session.image@.len() <= i < written.len() ==> written[i] == 0u8
            }
        }),
{
    lemma_run_consistent(session, events);
    lemma_run_keeps_image(session, events);
    let end = run_all(begin(session, EXT_CSD_NORMAL_MODE), events);
    if end.session.phase is Succeeded {
        lemma_padded_image(session.image@, end.session.sector());
        lemma_padded_len(session.image@.len(), end.session.sector());
        assert(transferred(end.submitted).subrange(0, session.image@.len() as int)
            =~= session.image@);
    }
}

/// Whatever the state machine submits is well-formed for a transport that
/// takes at least a register read in one command.
pub proof fn lemma_submissions_valid(session: FfuSession, events: Seq<EventModel>)
    requires
        session.is_fresh(),
        session.config.max_command_bytes >= EXT_CSD_SIZE,
    ensures
        all_valid(
            run_all(begin(session, EXT_CSD_NORMAL_MODE), events).submitted,
            session.config.max_command_bytes,
        ),
{
    lemma_run_consistent(session, events);
    lemma_run_keeps_image(session, events);
}

/// A failed validation leaves the device alone: in a run whose failure is a
/// validation failure, no command that writes to the device was submitted.
pub proof fn lemma_validation_failure_writes_nothing(
    session: FfuSession,
    events: Seq<EventModel>,
)
    requires
        session.is_fresh(),
    ensures
        ({
            let end = run_all(begin(session, EXT_CSD_NORMAL_MODE), events);
            end.session.failure is Some && end.session.failure->Some_0 is Validation
                ==> no_writes(end.submitted)
        }),
{
    lemma_run_consistent(session, events);
}

/// Validation decides by the register image alone. Where the image shows a
/// revision that defines FFU, the FFU bit set and updates not disabled, the
/// update goes on to the switch into FFU mode; else it fails with the
/// validation error, and the register read is the only command submitted.
pub proof fn lemma_validation_decides(session: FfuSession, data: Seq<u8>)
    requires
        session.is_fresh(),
        data.len() >= EXT_CSD_SIZE,
    ensures
        ({
            let end = run_all(
                begin(session, EXT_CSD_NORMAL_MODE),
                seq![EventModel::Start, EventModel::Completed(data)],
            );
            match capability_of(data).validation() {
                Ok(_) => end.session.phase is EnteringFfuMode && end.pending
                    == ActionModel::Submit(enter_ffu_command()),
                Err(v) => end.session.phase is Failed && end.pending == ActionModel::Finish(
                    Outcome::Failed { failure: Failure::Validation(v), restore_error: None },
                ) && end.submitted == seq![read_ext_csd_command()],
            }
        }),
{
    let start = begin(session, EXT_CSD_NORMAL_MODE);
    let events = seq![EventModel::Start, EventModel::Completed(data)];
    let first = events.drop_last();
    assert(first.len() == 1);
    assert(first.drop_last().len() == 0);
    assert(run_all(start, first.drop_last()) == start);
    assert(first.last() == EventModel::Start);
    let mid = advance(start, EventModel::Start);
    assert(run_all(start, first) == mid);
    assert(events.last() == EventModel::Completed(data));
    let end = advance(mid, EventModel::Completed(data));
    assert(run_all(start, events) == end);
    assert(mid.submitted =~= seq![read_ext_csd_command()]);
    assert(capability_of(data).validation() is Err ==> end.submitted =~= seq![
        read_ext_csd_command(),
    ]);
}

/// An update can be repeated: a run that succeeded leaves the device in
/// normal mode, so a second run finds the device as the first one did, and
/// on the same answers it succeeds again and leaves the same mode byte.
pub proof fn lemma_repeatable(session: FfuSession, events: Seq<EventModel>)
    requires
        session.is_fresh(),
        run_all(begin(session, EXT_CSD_NORMAL_MODE), events).session.phase is Succeeded,
    ensures
        ({
            let once = run_all(begin(session, EXT_CSD_NORMAL_MODE), events);
            let twice = run_all(begin(session, once.mode), events);
            &&& once.mode == EXT_CSD_NORMAL_MODE
            &&& twice.session.phase is Succeeded
            &&& twice.mode == once.mode
        }),
{
    lemma_run_consistent(session, events);
}

/// An image larger than the device accepts is never transferred: no run
/// submits a firmware write for it.
pub proof fn lemma_oversized_image_not_transferred(session: FfuSession, events: Seq<EventModel>)
    requires
        session.is_fresh(),
        session.image@.len() > session.config.max_firmware_bytes,
    ensures
        no_transfers(run_all(begin(session, EXT_CSD_NORMAL_MODE), events).submitted),
{
    lemma_run_consistent(session, events);
    lemma_run_keeps_image(session, events);
}

/// A run changes neither the image nor the limits of its session.
pub proof fn lemma_run_keeps_image(session: FfuSession, events: Seq<EventModel>)
    ensures
        run_all(begin(session, EXT_CSD_NORMAL_MODE), events).session.image == session.image,
        run_all(begin(session, EXT_CSD_NORMAL_MODE), events).session.config == session.config,
    decreases events.len(),
{
    if events.len() > 0 {
        lemma_run_keeps_image(session, events.drop_last());
    }
}

/// The size limit is exact: an image of exactly the largest size is not
/// refused as too large, and one byte more is.
pub proof fn lemma_size_boundary(cap: DeviceCapability, config: FfuConfig)
    ensures
        transfer_check(config.max_firmware_bytes as nat, cap, config) != Err::<(), FfuError>(
            FfuError::ImageTooLarge,
        ),
        cap.sector_size <= config.max_command_bytes ==> transfer_check(
            config.max_firmware_bytes as nat,
            cap,
            config,
        ) is Ok,
        transfer_check((config.max_firmware_bytes + 1) as nat, cap, config) == Err::<
            (),
            FfuError,
        >(FfuError::ImageTooLarge),
{
}

} // verus!
