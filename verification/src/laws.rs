//! Properties that hold of every slot and every queue.
//!
//! Each is stated over the spec functions that the contracts of
//! [`crate::event`] and [`crate::queue`] use, so that what is proved here
//! holds of what those functions do.

use vstd::prelude::*;
use crate::flags::{SubmissionFlags, IOSQE_FIXED_FILE};
use crate::platform::raw_os_error;
use crate::queue::{is_flush_result, os_error_code, pending_after, pending_with};
use crate::slot::{SubmissionSlot, IORING_OP_NOP};

verus! {

/// A no-op leaves the operation code at zero and the descriptor, the offset,
/// the address and the length at zero, whatever the slot held before; the
/// remaining fields keep their values.
pub proof fn lemma_nop_zeroes_operands(slot: SubmissionSlot)
    ensures
        slot.nop().opcode == 0,
        slot.nop().fd == 0,
        slot.nop().off == 0,
        slot.nop().addr == 0,
        slot.nop().len == 0,
        slot.nop().flags == slot.flags,
        slot.nop().cmd_flags == slot.cmd_flags,
        slot.nop().buf_index == slot.buf_index,
        slot.nop().user_data == slot.user_data,
{
}

/// The zeroed record has every field at zero, and a no-op prepared in it
/// changes nothing.
pub proof fn lemma_zeroed_is_all_zero()
    ensures
        SubmissionSlot::spec_zeroed().opcode == 0,
        SubmissionSlot::spec_zeroed().flags == 0,
        SubmissionSlot::spec_zeroed().fd == 0,
        SubmissionSlot::spec_zeroed().cmd_flags == 0,
        SubmissionSlot::spec_zeroed().off == 0,
        SubmissionSlot::spec_zeroed().addr == 0,
        SubmissionSlot::spec_zeroed().len == 0,
        SubmissionSlot::spec_zeroed().buf_index == 0,
        SubmissionSlot::spec_zeroed().user_data == 0,
        SubmissionSlot::spec_zeroed().nop() == SubmissionSlot::spec_zeroed(),
{
}

/// Flags that were set are read back bit for bit, the bits without a name
/// included, and setting them touches no other field.
pub proof fn lemma_flags_round_trip(slot: SubmissionSlot, flags: SubmissionFlags)
    ensures
        slot.with_flags(flags).submission_flags() == flags,
        slot.with_flags(flags).submission_flags().bits == flags.bits,
        slot.with_flags(flags) == (SubmissionSlot { flags: flags.bits, ..slot }),
{
}

/// A tag that was set is read back unchanged, and setting it touches no
/// other field.
pub proof fn lemma_user_data_round_trip(slot: SubmissionSlot, user_data: u64)
    ensures
        slot.with_user_data(user_data).user_data == user_data,
        slot.with_user_data(user_data) == (SubmissionSlot { user_data, ..slot }),
{
}

/// A transfer with a registered buffer always leaves the fixed-file flag
/// set, and every other flag as it was.
pub proof fn lemma_fixed_transfer_sets_fixed_file(
    slot: SubmissionSlot,
    opcode: u8,
    fd: i32,
    addr: u64,
    len: usize,
    offset: usize,
    buf_index: usize,
)
    ensures
        slot.fixed_transfer(opcode, fd, addr, len, offset, buf_index).submission_flags().has(
            SubmissionFlags { bits: IOSQE_FIXED_FILE },
        ),
        slot.fixed_transfer(opcode, fd, addr, len, offset, buf_index).flags & !IOSQE_FIXED_FILE
            == slot.flags & !IOSQE_FIXED_FILE,
{
    let old_flags: u8 = slot.flags;
    assert((old_flags | 0x01u8) & 0x01u8 == 0x01u8) by (bit_vector);
    assert((old_flags | 0x01u8) & !0x01u8 == old_flags & !0x01u8) by (bit_vector);
}

/// A vectored transfer never touches the flags: the fixed-file flag is set
/// afterwards exactly if it was set before.
pub proof fn lemma_transfer_keeps_flags(
    slot: SubmissionSlot,
    opcode: u8,
    fd: i32,
    addr: u64,
    len: usize,
    offset: usize,
)
    ensures
        slot.transfer(opcode, fd, addr, len, offset).flags == slot.flags,
        slot.transfer(opcode, fd, addr, len, offset).submission_flags()
            == slot.submission_flags(),
        slot.transfer(opcode, fd, addr, len, offset).cmd_flags == slot.cmd_flags,
        slot.transfer(opcode, fd, addr, len, offset).buf_index == slot.buf_index,
        slot.transfer(opcode, fd, addr, len, offset).user_data == slot.user_data,
{
}

/// The offset is stored whole. A length that fits in 32 bits and a buffer
/// index that fits in 16 bits are stored unchanged.
pub proof fn lemma_transfer_in_range(
    slot: SubmissionSlot,
    opcode: u8,
    fd: i32,
    addr: u64,
    len: usize,
    offset: usize,
    buf_index: usize,
)
    ensures
        slot.transfer(opcode, fd, addr, len, offset).off == offset,
        len <= u32::MAX ==> slot.transfer(opcode, fd, addr, len, offset).len == len,
        len <= u32::MAX ==> slot.fixed_transfer(opcode, fd, addr, len, offset, buf_index).len
            == len,
        buf_index <= u16::MAX ==> slot.fixed_transfer(
            opcode,
            fd,
            addr,
            len,
            offset,
            buf_index,
        ).buf_index == buf_index,
{
}

/// A length or an index that does not fit is stored modulo the width of its
/// field.
pub proof fn lemma_transfer_wraps(
    slot: SubmissionSlot,
    opcode: u8,
    fd: i32,
    addr: u64,
    len: usize,
    offset: usize,
    buf_index: usize,
)
    ensures
        slot.transfer(opcode, fd, addr, len, offset).len == (len as int) % 0x1_0000_0000,
        slot.fixed_transfer(opcode, fd, addr, len, offset, buf_index).buf_index == (
        buf_index as int) % 0x1_0000,
{
    let wide_len: u64 = len as u64;
    let wide_index: u64 = buf_index as u64;
    assert(wide_len as u32 == wide_len % 0x1_0000_0000u64) by (bit_vector);
    assert(wide_index as u16 == wide_index % 0x1_0000u64) by (bit_vector);
}

/// An operation prepared over another one keeps the fields that only the
/// first one wrote: a no-op after a registered-buffer transfer still holds
/// that transfer's buffer index and its fixed-file flag.
pub proof fn lemma_second_prep_keeps_stale_fields(
    slot: SubmissionSlot,
    opcode: u8,
    fd: i32,
    addr: u64,
    len: usize,
    offset: usize,
    buf_index: usize,
)
    ensures
        slot.fixed_transfer(opcode, fd, addr, len, offset, buf_index).nop().buf_index
            == slot.fixed_transfer(opcode, fd, addr, len, offset, buf_index).buf_index,
        slot.fixed_transfer(opcode, fd, addr, len, offset, buf_index).nop().flags
            == slot.fixed_transfer(opcode, fd, addr, len, offset, buf_index).flags,
        slot.fixed_transfer(opcode, fd, addr, len, offset, buf_index).nop().opcode
            == IORING_OP_NOP,
{
}

/// A flush never yields a negative count: a code that is not negative comes
/// back as that count, a negative one as the error that it stands for, whose
/// code is the return with its sign taken off.
pub proof fn lemma_flush_count_or_error(ret: i32, result: Result<usize, std::io::Error>)
    requires
        is_flush_result(ret, result),
    ensures
        result is Ok <==> ret >= 0,
        result matches Ok(count) ==> count == ret,
        result matches Err(error) ==> ret < 0 && raw_os_error(error) == Some(os_error_code(ret)),
        result matches Err(error) ==> (ret > i32::MIN ==> raw_os_error(error) == Some(
            (-ret) as i32,
        ) && -ret > 0),
        result matches Err(error) ==> (ret == i32::MIN ==> raw_os_error(error) == Some(i32::MIN)),
{
}

/// The code that a negative return stands for is positive and is the
/// return negated, but for the least `i32`, which stands for itself; and two
/// different returns never stand for the same code.
pub proof fn lemma_os_error_code(ret_a: i32, ret_b: i32)
    requires
        ret_a < 0,
        ret_b < 0,
    ensures
        ret_a > i32::MIN ==> os_error_code(ret_a) == -ret_a && os_error_code(ret_a) > 0,
        os_error_code(i32::MIN) == i32::MIN,
        os_error_code(-22i32) == 22,
        os_error_code(-16i32) == 16,
        ret_a != ret_b ==> os_error_code(ret_a) != os_error_code(ret_b),
{
}

/// Where the ring reports no more slots than were outstanding, the count
/// that a flush yields is at most the number of slots acquired and not yet
/// flushed, and what remains outstanding is the difference.
pub proof fn lemma_flush_count_bounded(
    pending: nat,
    ret: i32,
    result: Result<usize, std::io::Error>,
)
    requires
        is_flush_result(ret, result),
        ret <= pending,
    ensures
        result matches Ok(count) ==> count <= pending && pending_after(pending, ret) == pending
            - count,
        result is Err ==> pending_after(pending, ret) == pending,
{
}

/// A flush of an empty batch that the ring answers with zero yields the
/// count zero and leaves the batch empty.
pub proof fn lemma_flush_of_nothing(result: Result<usize, std::io::Error>)
    requires
        is_flush_result(0, result),
    ensures
        result == Ok::<usize, std::io::Error>(0usize),
        pending_after(0, 0) == 0,
{
}

/// Two different negative codes never yield the same error.
pub proof fn lemma_distinct_codes_distinct_errors(
    ret_a: i32,
    ret_b: i32,
    result_a: Result<usize, std::io::Error>,
    result_b: Result<usize, std::io::Error>,
)
    requires
        ret_a < 0,
        ret_b < 0,
        ret_a != ret_b,
        is_flush_result(ret_a, result_a),
        is_flush_result(ret_b, result_b),
    ensures
        result_a != result_b,
{
}

/// A full ring leaves the count of outstanding slots as it was; a slot that
/// was given out raises it by one, up to the limit of the counter.
pub proof fn lemma_acquisition_counts(pending: nat)
    ensures
        pending_with(pending, false) == pending,
        pending < usize::MAX ==> pending_with(pending, true) == pending + 1,
{
}

} // verus!
