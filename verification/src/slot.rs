//! The submission record, and what each operation writes into it.
//!
//! A [`SubmissionSlot`] holds the fields of one ring entry as plain integers.
//! The spec functions of this module say, field by field, which record an
//! operation leaves behind: the fields it names are set, every other field
//! keeps the value it had.

use vstd::prelude::*;
use crate::flags::{FsyncFlags, SubmissionFlags, IOSQE_FIXED_FILE};

verus! {

/// Operation code: do nothing.
pub const IORING_OP_NOP: u8 = 0;

/// Operation code: read into a list of buffers.
pub const IORING_OP_READV: u8 = 1;

/// Operation code: write from a list of buffers.
pub const IORING_OP_WRITEV: u8 = 2;

/// Operation code: sync a file.
pub const IORING_OP_FSYNC: u8 = 3;

/// Operation code: read into a registered buffer.
pub const IORING_OP_READ_FIXED: u8 = 4;

/// Operation code: write from a registered buffer.
pub const IORING_OP_WRITE_FIXED: u8 = 5;

/// One entry of the submission ring.
///
/// The ring stores an entry as a fixed binary record; this type holds the
/// same fields by name. Three of them are shared between operations: `off` is
/// a byte offset or a second descriptor, `cmd_flags` belongs to the operation
/// that `opcode` selects, and `buf_index` is meaningful for registered
/// buffers only.
#[derive(Clone, Copy, Debug, PartialEq, Eq, Structural)]
pub struct SubmissionSlot {
    /// Which operation to run.
    pub opcode: u8,
    /// Generic flags, as in [`SubmissionFlags`].
    pub flags: u8,
    /// The descriptor to run it on.
    pub fd: i32,
    /// Flags of the selected operation.
    pub cmd_flags: u32,
    /// Byte offset in the file.
    pub off: u64,
    /// Address of the buffer, or of the list of buffers.
    pub addr: u64,
    /// Length of the buffer in bytes, or of the list in entries.
    pub len: u32,
    /// Index of the registered buffer.
    pub buf_index: u16,
    /// Tag that the completion carries back; never interpreted here.
    pub user_data: u64,
}

impl SubmissionSlot {
    /// The record with every field zero.
    pub open spec fn spec_zeroed() -> SubmissionSlot {
        SubmissionSlot {
            opcode: 0,
            flags: 0,
            fd: 0,
            cmd_flags: 0,
            off: 0,
            addr: 0,
            len: 0,
            buf_index: 0,
            user_data: 0,
        }
    }

    /// The generic flags that the record holds, undefined bits included.
    pub open spec fn submission_flags(self) -> SubmissionFlags {
        SubmissionFlags { bits: self.flags }
    }

    /// The record after its correlation tag was set.
    pub open spec fn with_user_data(self, user_data: u64) -> SubmissionSlot {
        SubmissionSlot { user_data, ..self }
    }

    /// The record after its generic flags were replaced.
    pub open spec fn with_flags(self, flags: SubmissionFlags) -> SubmissionSlot {
        SubmissionSlot { flags: flags.bits, ..self }
    }

    /// The record after a no-op was prepared in it.
    pub open spec fn nop(self) -> SubmissionSlot {
        SubmissionSlot { opcode: IORING_OP_NOP, fd: 0, off: 0, addr: 0, len: 0, ..self }
    }

    /// The record after an fsync of `fd` was prepared in it.
    pub open spec fn fsync(self, fd: i32, flags: FsyncFlags) -> SubmissionSlot {
        SubmissionSlot {
            opcode: IORING_OP_FSYNC,
            fd,
            off: 0,
            addr: 0,
            len: 0,
            cmd_flags: flags.bits,
            ..self
        }
    }

    /// The record after a transfer was prepared in it: `opcode` on `fd`, at
    /// byte `offset`, with the buffer or list at `addr`. The record's length
    /// field has 32 bits and keeps the low 32 bits of `len`.
    pub open spec fn transfer(
        self,
        opcode: u8,
        fd: i32,
        addr: u64,
        len: usize,
        offset: usize,
    ) -> SubmissionSlot {
        SubmissionSlot { opcode, fd, off: offset as u64, addr, len: len as u32, ..self }
    }

    /// The record after a transfer with a registered buffer was prepared in
    /// it: as [`Self::transfer`], and the fixed-file flag is set on top of the
    /// flags that were there. The record's index field has 16 bits and keeps
    /// the low 16 bits of `buf_index`.
    pub open spec fn fixed_transfer(
        self,
        opcode: u8,
        fd: i32,
        addr: u64,
        len: usize,
        offset: usize,
        buf_index: usize,
    ) -> SubmissionSlot {
        SubmissionSlot {
            buf_index: buf_index as u16,
            flags: self.flags | IOSQE_FIXED_FILE,
            ..self.transfer(opcode, fd, addr, len, offset)
        }
    }

    /// A record with every field zero.
    #[verifier::when_used_as_spec(spec_zeroed)]
    pub fn zeroed() -> (slot: SubmissionSlot)
        ensures
            slot == SubmissionSlot::spec_zeroed(),
    {
        SubmissionSlot {
            opcode: 0,
            flags: 0,
            fd: 0,
            cmd_flags: 0,
            off: 0,
            addr: 0,
            len: 0,
            buf_index: 0,
            user_data: 0,
        }
    }
}

} // verus!
