//! Raw command descriptors and the encoding of the SWITCH command.

use vstd::prelude::*;
use crate::constants::{
    EXT_CSD_CMD_SET_NORMAL, EXT_CSD_SIZE, MMC_DATA_FLAGS, MMC_SEND_EXT_CSD, MMC_SWITCH,
    MMC_SWITCH_FLAGS,
};

verus! {

/// How a SWITCH changes the addressed register byte.
#[derive(Clone, Copy, Debug, PartialEq, Eq)]
pub enum AccessMode {
    CommandSet,
    SetBits,
    ClearBits,
    WriteByte,
}

impl AccessMode {
    /// The two-bit code of the access mode.
    pub open spec fn code_spec(self) -> u32 {
        match self {
            AccessMode::CommandSet => 0,
            AccessMode::SetBits => 1,
            AccessMode::ClearBits => 2,
            AccessMode::WriteByte => 3,
        }
    }

    /// The two-bit code of the access mode.
    pub fn code(&self) -> (c: u32)
        ensures
            c == self.code_spec(),
            c <= 3,
    {
        match self {
            AccessMode::CommandSet => 0,
            AccessMode::SetBits => 1,
            AccessMode::ClearBits => 2,
            AccessMode::WriteByte => 3,
        }
    }
}

/// One command for the device: direction, opcode, argument word, flags, block
/// geometry, and the data that goes with it.
#[derive(Clone, Debug, PartialEq, Eq)]
pub struct RawCommand {
    pub write_flag: bool,
    pub opcode: u32,
    pub arg: u32,
    pub flags: u32,
    pub blksz: u32,
    pub blocks: u32,
    pub data: Vec<u8>,
}

/// A command as a mathematical value.
pub struct CommandModel {
    pub write_flag: bool,
    pub opcode: u32,
    pub arg: u32,
    pub flags: u32,
    pub blksz: u32,
    pub blocks: u32,
    pub data: Seq<u8>,
}

impl View for RawCommand {
    type V = CommandModel;

    open spec fn view(&self) -> CommandModel {
        CommandModel {
            write_flag: self.write_flag,
            opcode: self.opcode,
            arg: self.arg,
            flags: self.flags,
            blksz: self.blksz,
            blocks: self.blocks,
            data: self.data@,
        }
    }
}

/// A list of commands as mathematical values.
pub open spec fn commands_view(cmds: Seq<RawCommand>) -> Seq<CommandModel> {
    Seq::new(cmds.len(), |i: int| cmds[i]@)
}

/// An ordered list of commands that the transport takes as one unit.
#[derive(Clone, Debug, PartialEq, Eq)]
pub struct MmcIocMultiCmd {
    pub cmds: Vec<RawCommand>,
}

impl View for MmcIocMultiCmd {
    type V = Seq<CommandModel>;

    open spec fn view(&self) -> Seq<CommandModel> {
        commands_view(self.cmds@)
    }
}

impl MmcIocMultiCmd {
    /// A batch without commands.
    pub fn new() -> (batch: Self)
        ensures
            batch@ == Seq::<CommandModel>::empty(),
    {
        let batch = MmcIocMultiCmd { cmds: Vec::new() };
        assert(batch@ =~= Seq::<CommandModel>::empty());
        batch
    }

    /// Puts a command at the end of the batch.
    pub fn push(&mut self, cmd: RawCommand)
        ensures
            final(self)@ == old(self)@.push(cmd@),
    {
        self.cmds.push(cmd);
        assert(self@ =~= old(self)@.push(cmd@));
    }

    /// The number of commands in the batch.
    pub fn len(&self) -> (n: usize)
        ensures
            n == self@.len(),
    {
        self.cmds.len()
    }
}

/// The argument word of a SWITCH: access mode in bits 25..24, field index in
/// bits 23..16, value in bits 15..8, command set in bits 2..0.
pub open spec fn switch_arg(field_offset: u8, value: u8, access_mode: AccessMode) -> u32 {
    (access_mode.code_spec() << 24) | ((field_offset as u32) << 16) | ((value as u32) << 8) | (
    EXT_CSD_CMD_SET_NORMAL as u32)
}

/// The access-mode code in a SWITCH argument.
pub open spec fn switch_arg_access(arg: u32) -> u32 {
    (arg >> 24) & 0x3
}

/// The field index in a SWITCH argument.
pub open spec fn switch_arg_index(arg: u32) -> u8 {
    ((arg >> 16) & 0xff) as u8
}

/// The value in a SWITCH argument.
pub open spec fn switch_arg_value(arg: u32) -> u8 {
    ((arg >> 8) & 0xff) as u8
}

/// The command-set code in a SWITCH argument.
pub open spec fn switch_arg_cmd_set(arg: u32) -> u32 {
    arg & 0x7
}

/// The SWITCH command that applies a value to one register byte.
pub open spec fn switch_command(field_offset: u8, value: u8, access_mode: AccessMode)
    -> CommandModel {
    CommandModel {
        write_flag: true,
        opcode: MMC_SWITCH,
        arg: switch_arg(field_offset, value, access_mode),
        flags: MMC_SWITCH_FLAGS,
        blksz: 0,
        blocks: 0,
        data: Seq::empty(),
    }
}

/// The command that reads the register set into a 512-byte buffer.
pub open spec fn read_ext_csd_command() -> CommandModel {
    CommandModel {
        write_flag: false,
        opcode: MMC_SEND_EXT_CSD,
        arg: 0,
        flags: MMC_DATA_FLAGS,
        blksz: EXT_CSD_SIZE as u32,
        blocks: 1,
        data: Seq::new(EXT_CSD_SIZE as nat, |i: int| 0u8),
    }
}

proof fn lemma_pack_unpack(c: u32, f: u32, v: u32)
    by (bit_vector)
    requires
        c <= 3,
        f <= 0xff,
        v <= 0xff,
    ensures
        (((c << 24) | (f << 16) | (v << 8) | 1u32) >> 24) & 0x3 == c,
        (((c << 24) | (f << 16) | (v << 8) | 1u32) >> 16) & 0xff == f,
        (((c << 24) | (f << 16) | (v << 8) | 1u32) >> 8) & 0xff == v,
        ((c << 24) | (f << 16) | (v << 8) | 1u32) & 0x7 == 1,
        ((c << 24) | (f << 16) | (v << 8) | 1u32) == c * 0x100_0000 + f * 0x1_0000 + v * 0x100
            + 1,
{
}

/// Every field of a SWITCH argument reads back as it was packed, and the
/// fields do not overlap: the word is their weighted sum.
pub proof fn lemma_switch_arg_fields(field_offset: u8, value: u8, access_mode: AccessMode)
    ensures
        switch_arg_access(switch_arg(field_offset, value, access_mode))
            == access_mode.code_spec(),
        switch_arg_index(switch_arg(field_offset, value, access_mode)) == field_offset,
        switch_arg_value(switch_arg(field_offset, value, access_mode)) == value,
        switch_arg_cmd_set(switch_arg(field_offset, value, access_mode))
            == EXT_CSD_CMD_SET_NORMAL,
        switch_arg(field_offset, value, access_mode) == access_mode.code_spec() * 0x100_0000
            + field_offset * 0x1_0000 + value * 0x100 + 1,
{
    lemma_pack_unpack(access_mode.code_spec(), field_offset as u32, value as u32);
}

/// Builds the SWITCH command that applies `value` to the register byte at
/// `field_offset`. It carries no data and cannot fail.
pub fn build_switch(field_offset: u8, value: u8, access_mode: AccessMode) -> (cmd: RawCommand)
    ensures
        cmd@ == switch_command(field_offset, value, access_mode),
{
    let code: u32 = access_mode.code();
    let arg: u32 = (code << 24) | ((field_offset as u32) << 16) | ((value as u32) << 8) | (
    EXT_CSD_CMD_SET_NORMAL as u32);
    let cmd = RawCommand {
        write_flag: true,
        opcode: MMC_SWITCH,
        arg,
        flags: MMC_SWITCH_FLAGS,
        blksz: 0,
        blocks: 0,
        data: Vec::new(),
    };
    assert(cmd.data@ =~= Seq::<u8>::empty());
    cmd
}

/// Builds the command that reads the register set, with a zeroed buffer of
/// 512 bytes for the answer.
pub fn build_read_ext_csd() -> (cmd: RawCommand)
    ensures
        cmd@ == read_ext_csd_command(),
{
    let mut data: Vec<u8> = Vec::new();
    let mut i: usize = 0;
    while i < EXT_CSD_SIZE
        invariant
            i <= EXT_CSD_SIZE,
            data@.len() == i,
            forall|j: int| 0 <= j < i ==> data@[j] == 0u8,
        decreases EXT_CSD_SIZE - i,
    {
        data.push(0u8);
        i += 1;
    }
    let cmd = RawCommand {
        write_flag: false,
        opcode: MMC_SEND_EXT_CSD,
        arg: 0,
        flags: MMC_DATA_FLAGS,
        blksz: 512,
        blocks: 1,
        data,
    };
    assert(cmd.data@ =~= read_ext_csd_command().data);
    cmd
}

} // verus!
