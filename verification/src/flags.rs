//! The two bit sets of a submission record.
//!
//! [`SubmissionFlags`] is the generic flags byte that every operation has;
//! [`FsyncFlags`] is the word that an fsync carries in the record's
//! operation-specific field. Both are plain bit masks: a value may hold bits
//! that have no name here, and every accessor hands them back untouched.

use vstd::prelude::*;

verus! {

/// Generic flag: the descriptor is an index into the registered file set.
pub const IOSQE_FIXED_FILE: u8 = 0x01;

/// Generic flag: issue only after the operations in flight have completed.
pub const IOSQE_IO_DRAIN: u8 = 0x02;

/// Generic flag: the next record of the batch depends on this one.
pub const IOSQE_IO_LINK: u8 = 0x04;

/// Every generic flag that has a name.
pub const IOSQE_ALL: u8 = 0x07;

/// Fsync flag: sync the data only, not the metadata.
pub const IORING_FSYNC_DATASYNC: u32 = 0x01;

/// Every fsync flag that has a name.
pub const IORING_FSYNC_ALL: u32 = 0x01;

/// The generic flags of a submission record.
#[derive(Clone, Copy, Debug, PartialEq, Eq, Hash, Structural)]
pub struct SubmissionFlags {
    pub bits: u8,
}

impl SubmissionFlags {
    /// No bit outside the named ones is set.
    pub open spec fn is_known(self) -> bool {
        self.bits & !IOSQE_ALL == 0
    }

    /// Every bit of `other` is set in `self`.
    pub open spec fn has(self, other: SubmissionFlags) -> bool {
        self.bits & other.bits == other.bits
    }

    /// The set with no bit.
    pub fn empty() -> (f: SubmissionFlags)
        ensures
            f.bits == 0,
            f.is_known(),
    {
        assert(0u8 & !0x07u8 == 0) by (bit_vector);
        SubmissionFlags { bits: 0 }
    }

    /// The set of all named bits.
    pub fn all() -> (f: SubmissionFlags)
        ensures
            f.bits == IOSQE_ALL,
            f.is_known(),
    {
        assert(0x07u8 & !0x07u8 == 0) by (bit_vector);
        SubmissionFlags { bits: IOSQE_ALL }
    }

    /// The descriptor names a registered file.
    pub fn fixed_file() -> (f: SubmissionFlags)
        ensures
            f.bits == IOSQE_FIXED_FILE,
            f.is_known(),
    {
        assert(0x01u8 & !0x07u8 == 0) by (bit_vector);
        SubmissionFlags { bits: IOSQE_FIXED_FILE }
    }

    /// Issue after the operations in flight.
    pub fn io_drain() -> (f: SubmissionFlags)
        ensures
            f.bits == IOSQE_IO_DRAIN,
            f.is_known(),
    {
        assert(0x02u8 & !0x07u8 == 0) by (bit_vector);
        SubmissionFlags { bits: IOSQE_IO_DRAIN }
    }

    /// The next record depends on this one.
    pub fn io_link() -> (f: SubmissionFlags)
        ensures
            f.bits == IOSQE_IO_LINK,
            f.is_known(),
    {
        assert(0x04u8 & !0x07u8 == 0) by (bit_vector);
        SubmissionFlags { bits: IOSQE_IO_LINK }
    }

    /// The raw bit pattern.
    pub fn bits(&self) -> (b: u8)
        ensures
            b == self.bits,
    {
        self.bits
    }

    /// The set with exactly the bits of `bits`, if all of them have a name.
    pub fn from_bits(bits: u8) -> (r: Option<SubmissionFlags>)
        ensures
            r == if bits & !IOSQE_ALL == 0 {
                Some(SubmissionFlags { bits })
            } else {
                None
            },
    {
        if bits & !IOSQE_ALL == 0 {
            Some(SubmissionFlags { bits })
        } else {
            None
        }
    }

    /// The named bits of `bits`; the others are dropped.
    pub fn from_bits_truncate(bits: u8) -> (f: SubmissionFlags)
        ensures
            f.bits == bits & IOSQE_ALL,
            f.is_known(),
    {
        assert((bits & 0x07u8) & !0x07u8 == 0) by (bit_vector);
        SubmissionFlags { bits: bits & IOSQE_ALL }
    }

    /// The set with exactly the bits of `bits`, named or not.
    pub fn from_bits_unchecked(bits: u8) -> (f: SubmissionFlags)
        ensures
            f.bits == bits,
    {
        SubmissionFlags { bits }
    }

    /// Whether no bit is set.
    pub fn is_empty(&self) -> (b: bool)
        ensures
            b == (self.bits == 0),
    {
        self.bits == 0
    }

    /// Whether every bit of `other` is set in `self`.
    pub fn contains(&self, other: SubmissionFlags) -> (b: bool)
        ensures
            b == self.has(other),
    {
        self.bits & other.bits == other.bits
    }

    /// The bits of both sets.
    pub fn union(self, other: SubmissionFlags) -> (f: SubmissionFlags)
        ensures
            f.bits == self.bits | other.bits,
            f.has(self),
            f.has(other),
            self.is_known() && other.is_known() ==> f.is_known(),
    {
        let a: u8 = self.bits;
        let b: u8 = other.bits;
        assert((a | b) & a == a) by (bit_vector);
        assert((a | b) & b == b) by (bit_vector);
        assert(a & !0x07u8 == 0 && b & !0x07u8 == 0 ==> (a | b) & !0x07u8 == 0) by (bit_vector);
        SubmissionFlags { bits: a | b }
    }
}

/// The flags of an fsync operation.
#[derive(Clone, Copy, Debug, PartialEq, Eq, Hash, Structural)]
pub struct FsyncFlags {
    pub bits: u32,
}

impl FsyncFlags {
    /// No bit outside the named ones is set.
    pub open spec fn is_known(self) -> bool {
        self.bits & !IORING_FSYNC_ALL == 0
    }

    /// Every bit of `other` is set in `self`.
    pub open spec fn has(self, other: FsyncFlags) -> bool {
        self.bits & other.bits == other.bits
    }

    /// The set with no bit: a full sync, data and metadata.
    pub fn empty() -> (f: FsyncFlags)
        ensures
            f.bits == 0,
            f.is_known(),
    {
        assert(0u32 & !0x01u32 == 0) by (bit_vector);
        FsyncFlags { bits: 0 }
    }

    /// The set of all named bits.
    pub fn all() -> (f: FsyncFlags)
        ensures
            f.bits == IORING_FSYNC_ALL,
            f.is_known(),
    {
        assert(0x01u32 & !0x01u32 == 0) by (bit_vector);
        FsyncFlags { bits: IORING_FSYNC_ALL }
    }

    /// Sync the data only.
    pub fn fsync_datasync() -> (f: FsyncFlags)
        ensures
            f.bits == IORING_FSYNC_DATASYNC,
            f.is_known(),
    {
        assert(0x01u32 & !0x01u32 == 0) by (bit_vector);
        FsyncFlags { bits: IORING_FSYNC_DATASYNC }
    }

    /// The raw bit pattern.
    pub fn bits(&self) -> (b: u32)
        ensures
            b == self.bits,
    {
        self.bits
    }

    /// The set with exactly the bits of `bits`, if all of them have a name.
    pub fn from_bits(bits: u32) -> (r: Option<FsyncFlags>)
        ensures
            r == if bits & !IORING_FSYNC_ALL == 0 {
                Some(FsyncFlags { bits })
            } else {
                None
            },
    {
        if bits & !IORING_FSYNC_ALL == 0 {
            Some(FsyncFlags { bits })
        } else {
            None
        }
    }

    /// The named bits of `bits`; the others are dropped.
    pub fn from_bits_truncate(bits: u32) -> (f: FsyncFlags)
        ensures
            f.bits == bits & IORING_FSYNC_ALL,
            f.is_known(),
    {
        assert((bits & 0x01u32) & !0x01u32 == 0) by (bit_vector);
        FsyncFlags { bits: bits & IORING_FSYNC_ALL }
    }

    /// The set with exactly the bits of `bits`, named or not.
    pub fn from_bits_unchecked(bits: u32) -> (f: FsyncFlags)
        ensures
            f.bits == bits,
    {
        FsyncFlags { bits }
    }

    /// Whether no bit is set.
    pub fn is_empty(&self) -> (b: bool)
        ensures
            b == (self.bits == 0),
    {
        self.bits == 0
    }

    /// Whether every bit of `other` is set in `self`.
    pub fn contains(&self, other: FsyncFlags) -> (b: bool)
        ensures
            b == self.has(other),
    {
        self.bits & other.bits == other.bits
    }

    /// The bits of both sets.
    pub fn union(self, other: FsyncFlags) -> (f: FsyncFlags)
        ensures
            f.bits == self.bits | other.bits,
            f.has(self),
            f.has(other),
            self.is_known() && other.is_known() ==> f.is_known(),
    {
        let a: u32 = self.bits;
        let b: u32 = other.bits;
        assert((a | b) & a == a) by (bit_vector);
        assert((a | b) & b == b) by (bit_vector);
        assert(a & !0x01u32 == 0 && b & !0x01u32 == 0 ==> (a | b) & !0x01u32 == 0) by (bit_vector);
        FsyncFlags { bits: a | b }
    }
}

} // verus!
