use uring_sqe::flags::{
    FsyncFlags, SubmissionFlags, IORING_FSYNC_ALL, IORING_FSYNC_DATASYNC, IOSQE_ALL,
    IOSQE_FIXED_FILE, IOSQE_IO_DRAIN, IOSQE_IO_LINK,
};

#[test]
fn generic_flag_bits_are_the_ring_values() {
    assert_eq!(IOSQE_FIXED_FILE, 1 << 0);
    assert_eq!(IOSQE_IO_DRAIN, 1 << 1);
    assert_eq!(IOSQE_IO_LINK, 1 << 2);
    assert_eq!(IOSQE_ALL, 0b111);
    assert_eq!(SubmissionFlags::fixed_file().bits(), 1);
    assert_eq!(SubmissionFlags::io_drain().bits(), 2);
    assert_eq!(SubmissionFlags::io_link().bits(), 4);
    assert_eq!(SubmissionFlags::empty().bits(), 0);
    assert_eq!(SubmissionFlags::all().bits(), 7);
}

#[test]
fn fsync_flag_bits_are_the_ring_values() {
    assert_eq!(IORING_FSYNC_DATASYNC, 1 << 0);
    assert_eq!(IORING_FSYNC_ALL, 0b1);
    assert_eq!(FsyncFlags::fsync_datasync().bits(), 1);
    assert_eq!(FsyncFlags::empty().bits(), 0);
    assert_eq!(FsyncFlags::all().bits(), 1);
}

#[test]
fn from_bits_accepts_named_bits_only() {
    assert_eq!(SubmissionFlags::from_bits(0), Some(SubmissionFlags::empty()));
    assert_eq!(SubmissionFlags::from_bits(5), Some(SubmissionFlags { bits: 5 }));
    assert_eq!(SubmissionFlags::from_bits(7), Some(SubmissionFlags::all()));
    assert_eq!(SubmissionFlags::from_bits(8), None);
    assert_eq!(SubmissionFlags::from_bits(0x81), None);
    assert_eq!(FsyncFlags::from_bits(1), Some(FsyncFlags::fsync_datasync()));
    assert_eq!(FsyncFlags::from_bits(2), None);
    assert_eq!(FsyncFlags::from_bits(0x8000_0001), None);
}

#[test]
fn from_bits_truncate_drops_unnamed_bits() {
    assert_eq!(SubmissionFlags::from_bits_truncate(0xFF).bits(), 7);
    assert_eq!(SubmissionFlags::from_bits_truncate(0xF2).bits(), 2);
    assert_eq!(SubmissionFlags::from_bits_truncate(0).bits(), 0);
    assert_eq!(FsyncFlags::from_bits_truncate(0xFFFF_FFFF).bits(), 1);
    assert_eq!(FsyncFlags::from_bits_truncate(0xFFFF_FFFE).bits(), 0);
}

#[test]
fn from_bits_unchecked_keeps_every_bit() {
    for bits in 0..=u8::MAX {
        assert_eq!(SubmissionFlags::from_bits_unchecked(bits).bits(), bits);
    }
    assert_eq!(FsyncFlags::from_bits_unchecked(0xDEAD_BEEF).bits(), 0xDEAD_BEEF);
}

#[test]
fn union_holds_both_sets() {
    let both = SubmissionFlags::fixed_file().union(SubmissionFlags::io_link());
    assert_eq!(both.bits(), 5);
    assert!(both.contains(SubmissionFlags::fixed_file()));
    assert!(both.contains(SubmissionFlags::io_link()));
    assert!(!both.contains(SubmissionFlags::io_drain()));
    assert!(both.contains(SubmissionFlags::empty()));
    assert!(!SubmissionFlags::fixed_file().contains(both));
    assert_eq!(both.union(SubmissionFlags::io_drain()), SubmissionFlags::all());
    let sync = FsyncFlags::empty().union(FsyncFlags::fsync_datasync());
    assert_eq!(sync, FsyncFlags::fsync_datasync());
    assert!(sync.contains(FsyncFlags::fsync_datasync()));
    assert!(!FsyncFlags::empty().contains(FsyncFlags::fsync_datasync()));
}

#[test]
fn is_empty_is_true_of_zero_only() {
    assert!(SubmissionFlags::empty().is_empty());
    assert!(!SubmissionFlags::io_drain().is_empty());
    assert!(!SubmissionFlags::from_bits_unchecked(0x80).is_empty());
    assert!(FsyncFlags::empty().is_empty());
    assert!(!FsyncFlags::fsync_datasync().is_empty());
}
