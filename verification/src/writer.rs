//! Cutting a firmware image into sector-sized write commands.

use vstd::prelude::*;
use crate::command::{CommandModel, MmcIocMultiCmd, RawCommand};
use crate::constants::{MMC_DATA_FLAGS, MMC_WRITE_BLOCK, SECTOR_SIZE_512};
use crate::error::{FfuError, TransportError};
use crate::ext_csd::DeviceCapability;

verus! {

/// The limits that an update runs under.
#[derive(Clone, Copy, Debug, PartialEq, Eq)]
pub struct FfuConfig {
    /// The most data bytes that the transport takes in one command.
    pub max_command_bytes: u32,
    /// The most commands that the transport takes in one submission; below
    /// two, every command is submitted alone.
    pub max_batch: u32,
    /// The largest firmware image in bytes that the device accepts.
    pub max_firmware_bytes: u32,
}

/// The number of sectors that an image of `len` bytes fills, the last one
/// possibly in part.
pub open spec fn chunk_count(len: nat, sector: nat) -> nat {
    if sector == 0 {
        0
    } else {
        ((len + sector - 1) / (sector as int)) as nat
    }
}

/// The image length rounded up to the next sector boundary.
pub open spec fn padded_len(len: nat, sector: nat) -> nat {
    chunk_count(len, sector) * sector
}

/// The image followed by as many zero bytes as fill its last sector.
pub open spec fn padded_image(image: Seq<u8>, sector: nat) -> Seq<u8> {
    image + Seq::new((padded_len(image.len(), sector) - image.len()) as nat, |i: int| 0u8)
}

/// The write command of the sector with the given index: one block of one
/// sector, addressed in sectors from the firmware-configuration byte on.
pub open spec fn chunk_command(image: Seq<u8>, cap: DeviceCapability, index: nat)
    -> CommandModel {
    CommandModel {
        write_flag: true,
        opcode: MMC_WRITE_BLOCK,
        arg: (cap.fw_config + index) as u32,
        flags: MMC_DATA_FLAGS,
        blksz: cap.sector_size,
        blocks: 1,
        data: padded_image(image, cap.sector_size as nat).subrange(
            index * cap.sector_size,
            (index + 1) * cap.sector_size,
        ),
    }
}

/// The write commands of `n` consecutive sectors from `first` on.
pub open spec fn chunk_commands(image: Seq<u8>, cap: DeviceCapability, first: nat, n: nat)
    -> Seq<CommandModel> {
    Seq::new(n, |i: int| chunk_command(image, cap, (first + i) as nat))
}

/// All data bytes of a list of commands, in order.
pub open spec fn written_bytes(cmds: Seq<CommandModel>) -> Seq<u8>
    decreases cmds.len(),
{
    if cmds.len() == 0 {
        Seq::empty()
    } else {
        written_bytes(cmds.drop_last()) + cmds.last().data
    }
}

/// What stands against a transfer, if anything: an image larger than the
/// device accepts, or a sector that does not fit into one command.
pub open spec fn transfer_check(len: nat, cap: DeviceCapability, config: FfuConfig) -> Result<
    (),
    FfuError,
> {
    if len > config.max_firmware_bytes {
        Err(FfuError::ImageTooLarge)
    } else if cap.sector_size > config.max_command_bytes {
        Err(FfuError::TransferFailed(TransportError::InvalidArgument))
    } else {
        Ok(())
    }
}

/// Facts on rounding up to a sector boundary.
pub proof fn lemma_padded_len(len: nat, sector: nat)
    requires
        sector == 512 || sector == 4096,
    ensures
        len <= padded_len(len, sector) < len + sector,
        padded_len(len, sector) % sector == 0,
        len % sector == 0 ==> padded_len(len, sector) == len,
        chunk_count(len, sector) * 512 <= len + 4095,
{
    if sector == 512 {
        assert(padded_len(len, sector) == ((len + 511) / 512) * 512);
    } else {
        assert(padded_len(len, sector) == ((len + 4095) / 4096) * 4096);
    }
}

/// The padded image keeps every image byte in its place and holds zero
/// everywhere after them.
pub proof fn lemma_padded_image(image: Seq<u8>, sector: nat)
    requires
        sector == 512 || sector == 4096,
    ensures
        padded_image(image, sector).len() == padded_len(image.len(), sector),
        forall|i: int| 0 <= i < image.len() ==> padded_image(image, sector)[i] == image[i],
        forall|i: int|
            image.len() <= i < padded_len(image.len(), sector) ==> padded_image(image, sector)[i]
                == 0u8,
{
    lemma_padded_len(image.len(), sector);
}

/// What the write commands of a range of sectors carry, taken together,
/// is that range of the padded image.
pub proof fn lemma_written_range(image: Seq<u8>, cap: DeviceCapability, first: nat, n: nat)
    requires
        cap.sector_size_valid(),
        first + n <= chunk_count(image.len(), cap.sector_size as nat),
    ensures
        0 <= first * cap.sector_size <= (first + n) * cap.sector_size <= padded_image(
            image,
            cap.sector_size as nat,
        ).len(),
        written_bytes(chunk_commands(image, cap, first, n)) == padded_image(
            image,
            cap.sector_size as nat,
        ).subrange((first * cap.sector_size) as int, ((first + n) * cap.sector_size) as int),
    decreases n,
{
    let s = cap.sector_size as nat;
    let padded = padded_image(image, s);
    lemma_padded_image(image, s);
    let cmds = chunk_commands(image, cap, first, n);
    assert((first + n) * s <= chunk_count(image.len(), s) * s) by (nonlinear_arith)
        requires
            first + n <= chunk_count(image.len(), s),
    ;
    assert(0 <= first * s <= (first + n) * s) by (nonlinear_arith);
    if n == 0 {
        assert(written_bytes(cmds) =~= padded.subrange((first * s) as int, (first * s) as int));
    } else {
        let m = (n - 1) as nat;
        lemma_written_range(image, cap, first, m);
        assert(cmds.drop_last() =~= chunk_commands(image, cap, first, m));
        assert(cmds.last() == chunk_command(image, cap, first + m));
        assert((first + m) * s + s == (first + n) * s) by (nonlinear_arith)
            requires
                m + 1 == n,
        ;
        assert((first + m + 1) * s == (first + n) * s);
        assert(padded.subrange((first * s) as int, ((first + m) * s) as int) + padded.subrange(
            ((first + m) * s) as int,
            ((first + n) * s) as int,
        ) =~= padded.subrange((first * s) as int, ((first + n) * s) as int));
    }
}

/// What the write commands of a whole image carry, taken together, is the
/// image followed by zero bytes up to the next sector boundary: nothing is
/// cut off, and the padding is zero.
pub proof fn lemma_written_bytes(image: Seq<u8>, cap: DeviceCapability)
    requires
        cap.sector_size_valid(),
    ensures
        written_bytes(
            chunk_commands(image, cap, 0, chunk_count(image.len(), cap.sector_size as nat)),
        ) == padded_image(image, cap.sector_size as nat),
        written_bytes(
            chunk_commands(image, cap, 0, chunk_count(image.len(), cap.sector_size as nat)),
        ).len() == padded_len(image.len(), cap.sector_size as nat),
        written_bytes(
            chunk_commands(image, cap, 0, chunk_count(image.len(), cap.sector_size as nat)),
        ).subrange(0, image.len() as int) == image,
        forall|i: int|
            image.len() <= i < padded_len(image.len(), cap.sector_size as nat) ==> written_bytes(
                chunk_commands(image, cap, 0, chunk_count(image.len(), cap.sector_size as nat)),
            )[i] == 0u8,
{
    let s = cap.sector_size as nat;
    let padded = padded_image(image, s);
    lemma_written_range(image, cap, 0, chunk_count(image.len(), s));
    lemma_padded_image(image, s);
    assert(padded.subrange(0, padded_len(image.len(), s) as int) =~= padded);
    assert(padded.subrange(0, image.len() as int) =~= image);
}

/// The write commands of an image go to strictly increasing addresses.
pub proof fn lemma_addresses_increase(image: Seq<u8>, cap: DeviceCapability, i: nat, j: nat)
    requires
        cap.sector_size_valid(),
        image.len() <= u32::MAX,
        i < j < chunk_count(image.len(), cap.sector_size as nat),
    ensures
        chunk_command(image, cap, i).arg < chunk_command(image, cap, j).arg,
{
    lemma_padded_len(image.len(), cap.sector_size as nat);
}

/// Every write command of an image carries exactly one sector.
pub proof fn lemma_chunk_is_one_sector(image: Seq<u8>, cap: DeviceCapability, index: nat)
    requires
        cap.sector_size_valid(),
        index < chunk_count(image.len(), cap.sector_size as nat),
    ensures
        chunk_command(image, cap, index).data.len() == cap.sector_size,
        chunk_command(image, cap, index).data.len() == chunk_command(image, cap, index).blksz
            * chunk_command(image, cap, index).blocks,
{
    let s = cap.sector_size as nat;
    lemma_padded_image(image, s);
    assert((index + 1) * s <= chunk_count(image.len(), s) * s) by (nonlinear_arith)
        requires
            index + 1 <= chunk_count(image.len(), s),
    ;
    assert(index * s + s == (index + 1) * s) by (nonlinear_arith);
    assert(0 <= index * s) by (nonlinear_arith);
}

/// Decides whether an image can be transferred at all.
pub fn check_image(len: usize, cap: &DeviceCapability, config: &FfuConfig) -> (r: Result<
    (),
    FfuError,
>)
    ensures
        r == transfer_check(len as nat, *cap, *config),
{
    if len as u64 > config.max_firmware_bytes as u64 {
        Err(FfuError::ImageTooLarge)
    } else if cap.sector_size > config.max_command_bytes {
        Err(FfuError::TransferFailed(TransportError::InvalidArgument))
    } else {
        Ok(())
    }
}

/// The number of write commands that an image of `len` bytes takes.
pub fn count_chunks(len: usize, cap: &DeviceCapability) -> (n: u64)
    requires
        cap.sector_size_valid(),
    ensures
        n == chunk_count(len as nat, cap.sector_size as nat),
{
    let bytes: u64 = len as u64;
    if cap.sector_size == SECTOR_SIZE_512 {
        if bytes % 512 == 0 {
            bytes / 512
        } else {
            bytes / 512 + 1
        }
    } else {
        if bytes % 4096 == 0 {
            bytes / 4096
        } else {
            bytes / 4096 + 1
        }
    }
}

/// Builds the write command of one sector of the image. The last sector of
/// an image that ends inside it is filled up with zero bytes.
pub fn build_chunk(image: &Vec<u8>, cap: &DeviceCapability, index: u64) -> (cmd: RawCommand)
    requires
        cap.sector_size_valid(),
        image@.len() <= u32::MAX,
        index < chunk_count(image@.len(), cap.sector_size as nat),
    ensures
        cmd@ == chunk_command(image@, *cap, index as nat),
        cmd@.data.len() == cap.sector_size,
{
    let sector: u64 = cap.sector_size as u64;
    let len: u64 = image.len() as u64;
    proof {
        lemma_padded_image(image@, sector as nat);
        lemma_padded_len(image@.len(), sector as nat);
        assert((index + 1) * sector <= chunk_count(image@.len(), sector as nat) * sector)
            by (nonlinear_arith)
            requires
                index + 1 <= chunk_count(image@.len(), sector as nat),
        ;
        assert(index * sector + sector == (index + 1) * sector) by (nonlinear_arith);
    }
    let start: u64 = index * sector;
    let ghost padded = padded_image(image@, sector as nat);
    let mut data: Vec<u8> = Vec::new();
    let mut j: u64 = 0;
    while j < sector
        invariant
            j <= sector,
            sector == cap.sector_size,
            len == image@.len(),
            image@.len() <= usize::MAX,
            start == index * sector,
            start + sector <= padded.len(),
            padded == padded_image(image@, sector as nat),
            padded.len() < 0x1_0000_1000,
            forall|i: int| 0 <= i < image@.len() ==> padded[i] == image@[i],
            forall|i: int| image@.len() <= i < padded.len() ==> padded[i] == 0u8,
            data@ == padded.subrange(start as int, start + j),
        decreases sector - j,
    {
        let pos: u64 = start + j;
        let mut b: u8 = 0u8;
        if pos < len {
            assert(pos < image@.len());
            let at: usize = pos as usize;
            b = image[at];
            assert(padded[at as int] == image@[at as int]);
        } else {
            assert(padded[pos as int] == 0u8);
        }
        data.push(b);
        j += 1;
        assert(data@ =~= padded.subrange(start as int, start + j));
    }
    let arg: u32 = (cap.fw_config as u64 + index) as u32;
    RawCommand {
        write_flag: true,
        opcode: MMC_WRITE_BLOCK,
        arg,
        flags: MMC_DATA_FLAGS,
        blksz: cap.sector_size,
        blocks: 1,
        data,
    }
}

/// Builds the batch of the write commands of `n` consecutive sectors from
/// `first` on, in increasing address order.
pub fn build_chunks(image: &Vec<u8>, cap: &DeviceCapability, first: u64, n: u64) -> (batch:
    MmcIocMultiCmd)
    requires
        cap.sector_size_valid(),
        image@.len() <= u32::MAX,
        first + n <= chunk_count(image@.len(), cap.sector_size as nat),
    ensures
        batch@ == chunk_commands(image@, *cap, first as nat, n as nat),
{
    let mut batch = MmcIocMultiCmd::new();
    let mut i: u64 = 0;
    proof {
        lemma_padded_len(image@.len(), cap.sector_size as nat);
        assert(batch@ =~= chunk_commands(image@, *cap, first as nat, 0));
    }
    while i < n
        invariant
            i <= n,
            cap.sector_size_valid(),
            image@.len() <= u32::MAX,
            first + n <= chunk_count(image@.len(), cap.sector_size as nat),
            first + n <= u64::MAX,
            batch@ == chunk_commands(image@, *cap, first as nat, i as nat),
        decreases n - i,
    {
        let cmd = build_chunk(image, cap, first + i);
        batch.push(cmd);
        i += 1;
        assert(batch@ =~= chunk_commands(image@, *cap, first as nat, i as nat));
    }
    batch
}

/// Plans the transfer of a whole image: one write command per sector, in
/// increasing address order. An image larger than the device accepts is
/// refused as too large; a sector that does not fit into one command of the
/// transport is refused as an invalid argument.
pub fn plan_image(image: &Vec<u8>, cap: &DeviceCapability, config: &FfuConfig) -> (r: Result<
    MmcIocMultiCmd,
    FfuError,
>)
    requires
        cap.sector_size_valid(),
    ensures
        match transfer_check(image@.len(), *cap, *config) {
            Ok(_) => r is Ok && r->Ok_0@ == chunk_commands(
                image@,
                *cap,
                0,
                chunk_count(image@.len(), cap.sector_size as nat),
            ) && written_bytes(r->Ok_0@) == padded_image(
                image@,
                cap.sector_size as nat,
            ),
            Err(e) => r == Err::<MmcIocMultiCmd, FfuError>(e),
        },
{
    match check_image(image.len(), cap, config) {
        Err(e) => Err(e),
        Ok(_) => {
            let n: u64 = count_chunks(image.len(), cap);
            let cmds = build_chunks(image, cap, 0, n);
            proof {
                lemma_written_bytes(image@, *cap);
            }
            Ok(cmds)
        },
    }
}

} // verus!
