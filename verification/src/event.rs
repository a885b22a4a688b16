//! An exclusive handle on one submission slot.

use vstd::prelude::*;
use crate::flags::{FsyncFlags, SubmissionFlags, IOSQE_FIXED_FILE};
use crate::platform::slice_address;
use crate::slot::{
    SubmissionSlot, IORING_OP_FSYNC, IORING_OP_NOP, IORING_OP_READV, IORING_OP_READ_FIXED,
    IORING_OP_WRITEV, IORING_OP_WRITE_FIXED,
};

verus! {

/// A slot of the ring, borrowed for as long as it is being prepared.
///
/// The handle holds the only reference to its slot. A `prep_*` method writes
/// the fields of its operation and leaves every other field as it was, so a
/// slot that held another operation before is to be cleared first.
///
/// The contracts speak of the slot's record as the view of the handle, and of
/// `sqe` itself to say that the handle is still bound to the same slot.
pub struct SubmissionQueueEvent<'a> {
    pub sqe: &'a mut SubmissionSlot,
}

impl<'a> SubmissionQueueEvent<'a> {
    /// The record that the slot holds now.
    pub open spec fn view(&self) -> SubmissionSlot {
        *self.sqe
    }

    /// A handle on `sqe`. Whatever the handle writes is written to `sqe`.
    pub fn new(sqe: &'a mut SubmissionSlot) -> (event: SubmissionQueueEvent<'a>)
        ensures
            event@ == *old(sqe),
            *final(event.sqe) == *final(sqe),
    {
        SubmissionQueueEvent { sqe }
    }

    /// The correlation tag of the slot.
    pub fn user_data(&self) -> (user_data: u64)
        ensures
            user_data == self@.user_data,
    {
        self.sqe.user_data
    }

    /// Sets the correlation tag of the slot.
    pub fn set_user_data(&mut self, user_data: u64)
        ensures
            final(self)@ == old(self)@.with_user_data(user_data),
            *final(final(self).sqe) == *final(old(self).sqe),
    {
        self.sqe.user_data = user_data;
    }

    /// The generic flags of the slot, with every bit that the slot holds.
    pub fn flags(&self) -> (flags: SubmissionFlags)
        ensures
            flags == self@.submission_flags(),
    {
        SubmissionFlags::from_bits_unchecked(self.sqe.flags)
    }

    /// Replaces the generic flags of the slot.
    pub fn set_flags(&mut self, flags: SubmissionFlags)
        ensures
            final(self)@ == old(self)@.with_flags(flags),
            *final(final(self).sqe) == *final(old(self).sqe),
    {
        self.sqe.flags = flags.bits();
    }

    /// Prepares a transfer from plain values: `opcode` on `fd`, at byte
    /// `offset`, with the buffer or list of `len` items at address `addr`.
    pub fn prep_rw(&mut self, opcode: u8, fd: i32, addr: u64, len: usize, offset: usize)
        ensures
            final(self)@ == old(self)@.transfer(opcode, fd, addr, len, offset),
            *final(final(self).sqe) == *final(old(self).sqe),
    {
        self.sqe.opcode = opcode;
        self.sqe.fd = fd;
        self.sqe.off = offset as u64;
        self.sqe.addr = addr;
        self.sqe.len = #[verifier::truncate] (len as u32);
    }

    /// Prepares a transfer with the registered buffer `buf_index` from plain
    /// values, and sets the fixed-file flag.
    pub fn prep_rw_fixed(
        &mut self,
        opcode: u8,
        fd: i32,
        addr: u64,
        len: usize,
        offset: usize,
        buf_index: usize,
    )
        ensures
            final(self)@ == old(self)@.fixed_transfer(opcode, fd, addr, len, offset, buf_index),
            *final(final(self).sqe) == *final(old(self).sqe),
    {
        self.prep_rw(opcode, fd, addr, len, offset);
        self.sqe.buf_index = #[verifier::truncate] (buf_index as u16);
        self.sqe.flags = self.sqe.flags | IOSQE_FIXED_FILE;
    }

    /// Prepares a read from `fd` at byte `offset` into the buffers of `bufs`.
    ///
    /// The slot gets the address of the list itself and the number of its
    /// entries. The list and the buffers must stay where they are until the
    /// operation has completed.
    pub fn prep_read_vectored(
        &mut self,
        fd: i32,
        bufs: &mut [std::io::IoSliceMut<'_>],
        offset: usize,
    )
        ensures
            final(self)@ == old(self)@.transfer(
                IORING_OP_READV,
                fd,
                final(self)@.addr,
                old(bufs)@.len() as usize,
                offset,
            ),
            *final(final(self).sqe) == *final(old(self).sqe),
            final(bufs)@ == old(bufs)@,
    {
        let len: usize = bufs.len();
        let addr: u64 = slice_address(bufs);
        self.prep_rw(IORING_OP_READV, fd, addr, len, offset);
    }

    /// Prepares a read from `fd` at byte `offset` into `buf`, which is the
    /// registered buffer `buf_index`, and sets the fixed-file flag.
    ///
    /// The buffer must stay where it is until the operation has completed.
    pub fn prep_read_fixed(&mut self, fd: i32, buf: &mut [u8], offset: usize, buf_index: usize)
        ensures
            final(self)@ == old(self)@.fixed_transfer(
                IORING_OP_READ_FIXED,
                fd,
                final(self)@.addr,
                old(buf)@.len() as usize,
                offset,
                buf_index,
            ),
            *final(final(self).sqe) == *final(old(self).sqe),
            final(buf)@ == old(buf)@,
    {
        let len: usize = buf.len();
        let addr: u64 = slice_address(buf);
        self.prep_rw_fixed(IORING_OP_READ_FIXED, fd, addr, len, offset, buf_index);
    }

    /// Prepares a write to `fd` at byte `offset` from the buffers of `bufs`.
    ///
    /// The slot gets the address of the list itself and the number of its
    /// entries. The list and the buffers must stay where they are until the
    /// operation has completed.
    pub fn prep_write_vectored(&mut self, fd: i32, bufs: &[std::io::IoSlice<'_>], offset: usize)
        ensures
            final(self)@ == old(self)@.transfer(
                IORING_OP_WRITEV,
                fd,
                final(self)@.addr,
                bufs@.len() as usize,
                offset,
            ),
            *final(final(self).sqe) == *final(old(self).sqe),
    {
        let len: usize = bufs.len();
        let addr: u64 = slice_address(bufs);
        self.prep_rw(IORING_OP_WRITEV, fd, addr, len, offset);
    }

    /// Prepares a write to `fd` at byte `offset` from `buf`, which is the
    /// registered buffer `buf_index`, and sets the fixed-file flag.
    ///
    /// The buffer must stay where it is until the operation has completed.
    pub fn prep_write_fixed(&mut self, fd: i32, buf: &[u8], offset: usize, buf_index: usize)
        ensures
            final(self)@ == old(self)@.fixed_transfer(
                IORING_OP_WRITE_FIXED,
                fd,
                final(self)@.addr,
                buf@.len() as usize,
                offset,
                buf_index,
            ),
            *final(final(self).sqe) == *final(old(self).sqe),
    {
        let len: usize = buf.len();
        let addr: u64 = slice_address(buf);
        self.prep_rw_fixed(IORING_OP_WRITE_FIXED, fd, addr, len, offset, buf_index);
    }

    /// Prepares an fsync of `fd`: a full sync, or with the data-only flag a
    /// sync of the data alone.
    pub fn prep_fsync(&mut self, fd: i32, flags: FsyncFlags)
        ensures
            final(self)@ == old(self)@.fsync(fd, flags),
            *final(final(self).sqe) == *final(old(self).sqe),
    {
        self.sqe.opcode = IORING_OP_FSYNC;
        self.sqe.fd = fd;
        self.sqe.off = 0;
        self.sqe.addr = 0;
        self.sqe.len = 0;
        self.sqe.cmd_flags = flags.bits();
    }

    /// Prepares a no-op.
    pub fn prep_nop(&mut self)
        ensures
            final(self)@ == old(self)@.nop(),
            *final(final(self).sqe) == *final(old(self).sqe),
    {
        self.sqe.opcode = IORING_OP_NOP;
        self.sqe.fd = 0;
        self.sqe.off = 0;
        self.sqe.addr = 0;
        self.sqe.len = 0;
    }

    /// Sets every field of the slot to zero.
    pub fn clear(&mut self)
        ensures
            final(self)@ == SubmissionSlot::spec_zeroed(),
            *final(final(self).sqe) == *final(old(self).sqe),
    {
        *self.sqe = SubmissionSlot::zeroed();
    }

    /// The record of the slot, to read.
    pub fn raw(&self) -> (slot: &SubmissionSlot)
        ensures
            *slot == self@,
    {
        &*self.sqe
    }

    /// The record of the slot, to write: what the caller leaves in it is
    /// what the slot holds afterwards.
    pub fn raw_mut(&mut self) -> (slot: &mut SubmissionSlot)
        ensures
            *slot == old(self)@,
            final(self)@ == *final(slot),
            *final(final(self).sqe) == *final(old(self).sqe),
    {
        &mut *self.sqe
    }
}

} // verus!
