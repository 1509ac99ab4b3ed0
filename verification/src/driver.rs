//! The adapter between a block-device framework and the eMMC controller.
//!
//! An [`EmmcDriver`] owns the handle of an initialised controller. For each
//! request of the framework it decides whether the caller's buffer is
//! acceptable and, if so, which [`Transfer`] the controller is to perform;
//! when the transfer is over it turns the controller's verdict into the
//! framework's result. The adapter keeps no state of its own besides the
//! handle, and it never retries.

use crate::buffer::{lemma_alignment_by_ends, Alignment, BufferLayout, BLOCK_SIZE};
use crate::error::{deal_emmc_err, generic_code, SdError};
use axdriver_base::{DevError, DeviceType};
use vstd::prelude::*;

verus! {

/// `axdriver_base::DeviceType`, the kinds of device a driver can stand for.
///
/// The declaration only makes the type known to Verus, which reads the
/// variants from the crate itself; nothing is assumed about it.
#[verifier::external_type_specification]
pub struct ExDeviceType(axdriver_base::DeviceType);

/// Number of block addresses the controller can be given: it takes a block
/// address of 32 bits.
pub const CONTROLLER_BLOCKS: u64 = 0x1_0000_0000;

/// The direction in which a transfer moves data.
#[derive(Debug, Clone, Copy, PartialEq, Eq)]
pub enum Direction {
    /// From the device into the caller's buffer.
    Read,
    /// From the caller's buffer to the device.
    Write,
}

/// One transfer for the controller to perform on the caller's buffer.
#[derive(Debug, Clone, Copy, PartialEq, Eq)]
pub struct Transfer {
    /// Which way the data moves.
    pub direction: Direction,
    /// Address of the first block, as the controller takes it.
    pub block_id: u32,
    /// Number of blocks.
    pub blocks: u16,
}

impl Transfer {
    /// The transfer of the one block that `block_id` names. The controller
    /// is given the low 32 bits of the identifier.
    pub open spec fn single_block(direction: Direction, block_id: u64) -> Transfer {
        Transfer { direction, block_id: (block_id % CONTROLLER_BLOCKS) as u32, blocks: 1 }
    }

    fn new_single_block(direction: Direction, block_id: u64) -> (t: Transfer)
        ensures
            t == Transfer::single_block(direction, block_id),
    {
        let low: u64 = block_id % CONTROLLER_BLOCKS;
        Transfer { direction, block_id: low as u32, blocks: 1 }
    }
}

/// The decision to turn a request away with `code`, without a transfer.
pub open spec fn turned_away(code: DevError) -> Result<Transfer, DevError> {
    Err(code)
}

/// The decision to accept a request for the block `block_id`: the controller
/// is to transfer that one block.
pub open spec fn accepted(direction: Direction, block_id: u64) -> Result<Transfer, DevError> {
    Ok(Transfer::single_block(direction, block_id))
}

/// Driver for the eMMC controller of the RK3568, over the controller handle
/// `H`.
#[derive(Debug)]
pub struct EmmcDriver<H>(H);

impl<H> View for EmmcDriver<H> {
    type V = H;

    /// The controller handle that the adapter owns.
    closed spec fn view(&self) -> H {
        self.0
    }
}

impl<H> EmmcDriver<H> {
    /// Makes the adapter for a controller, given how the controller's
    /// initialisation ended.
    ///
    /// There is an adapter only for a controller that was initialised: after
    /// a failed initialisation the handle is given up and the error is `Io`,
    /// whatever the fault was.
    pub fn try_new(host: H, init: Result<(), SdError>) -> (r: Result<EmmcDriver<H>, DevError>)
        ensures
            init is Ok ==> r is Ok && r->Ok_0@ == host,
            init is Err ==> r == Err::<EmmcDriver<H>, DevError>(DevError::Io),
    {
        if init.is_ok() {
            Ok(EmmcDriver(host))
        } else {
            Err(DevError::Io)
        }
    }

    /// The controller handle, to perform a transfer with.
    pub fn host(&self) -> (h: &H)
        ensures
            *h == self@,
    {
        &self.0
    }

    /// The device type: a block device.
    pub fn device_type(&self) -> (t: DeviceType)
        ensures
            t == DeviceType::Block,
    {
        DeviceType::Block
    }

    /// The name by which the device is identified.
    pub fn device_name(&self) -> (name: &'static str)
        ensures
            name@ == "rk3568_emmc"@,
    {
        "rk3568_emmc"
    }

    /// Decides on a request to read the block `block_id` into a buffer that
    /// lies as `buf` says.
    ///
    /// A buffer shorter than a block, or one that does not begin and end on
    /// a word boundary, is turned away with `InvalidParam` and the
    /// controller is not to be called. Any other buffer is accepted, and the
    /// controller is to read exactly one block into it.
    pub fn read_block(&self, block_id: u64, buf: BufferLayout) -> (r: Result<Transfer, DevError>)
        ensures
            buf.len < BLOCK_SIZE ==> r == turned_away(DevError::InvalidParam),
            !(buf.alignment_spec() is Aligned) ==> r == turned_away(DevError::InvalidParam),
            !buf.ends_on_boundaries() ==> r == turned_away(DevError::InvalidParam),
            buf.len >= BLOCK_SIZE && buf.alignment_spec() is Aligned ==> r == accepted(
                Direction::Read,
                block_id,
            ),
    {
        proof {
            if buf.len >= BLOCK_SIZE {
                lemma_alignment_by_ends(buf);
            }
        }
        if buf.len < BLOCK_SIZE {
            return Err(DevError::InvalidParam);
        }
        match buf.alignment() {
            Alignment::Aligned => Ok(Transfer::new_single_block(Direction::Read, block_id)),
            Alignment::MisalignedPrefix | Alignment::MisalignedSuffix => Err(
                DevError::InvalidParam,
            ),
        }
    }

    /// Decides on a request to write the block `block_id` from a buffer that
    /// lies as `buf` says.
    ///
    /// A buffer shorter than a block is turned away with `Io`; one that is
    /// long enough and does not begin and end on a word boundary, with
    /// `InvalidParam`. In both cases the controller is not to be called. Any
    /// other buffer is accepted, and the controller is to write exactly one
    /// block from it.
    pub fn write_block(&self, block_id: u64, buf: BufferLayout) -> (r: Result<Transfer, DevError>)
        ensures
            buf.len < BLOCK_SIZE ==> r == turned_away(DevError::Io),
            buf.len >= BLOCK_SIZE && !(buf.alignment_spec() is Aligned) ==> r == turned_away(
                DevError::InvalidParam,
            ),
            buf.len >= BLOCK_SIZE && !buf.ends_on_boundaries() ==> r == turned_away(
                DevError::InvalidParam,
            ),
            buf.len >= BLOCK_SIZE && buf.alignment_spec() is Aligned ==> r == accepted(
                Direction::Write,
                block_id,
            ),
    {
        proof {
            if buf.len >= BLOCK_SIZE {
                lemma_alignment_by_ends(buf);
            }
        }
        if buf.len < BLOCK_SIZE {
            return Err(DevError::Io);
        }
        match buf.alignment() {
            Alignment::Aligned => Ok(Transfer::new_single_block(Direction::Write, block_id)),
            Alignment::MisalignedPrefix | Alignment::MisalignedSuffix => Err(
                DevError::InvalidParam,
            ),
        }
    }

    /// Turns the controller's verdict on a transfer into the result of the
    /// request: success stays success, and a fault is reported under its
    /// generic code.
    pub fn complete(&self, outcome: Result<(), SdError>) -> (r: Result<(), DevError>)
        ensures
            outcome is Ok ==> r == Ok::<(), DevError>(()),
            outcome is Err ==> r == Err::<(), DevError>(generic_code(outcome->Err_0)),
    {
        match outcome {
            Ok(()) => Ok(()),
            Err(err) => Err(deal_emmc_err(err)),
        }
    }

    /// Flushes cached writes. The adapter caches nothing, so there is
    /// nothing to do and the call always succeeds.
    pub fn flush(&mut self) -> (r: Result<(), DevError>)
        ensures
            r == Ok::<(), DevError>(()),
            final(self)@ == old(self)@,
    {
        Ok(())
    }
}

} // verus!
