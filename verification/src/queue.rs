//! Slot acquisition and the outcome of a flush.
//!
//! The ring itself is not here. Whoever owns it makes the ring's calls and
//! passes their results in: the slot that an acquisition gave out, or none
//! where the ring was full, and the code that a flush returned. The queue
//! turns those into a handle or a result, and keeps count of the slots that
//! were handed out and that no flush has taken yet.

use vstd::prelude::*;
use crate::event::SubmissionQueueEvent;
use crate::platform::{error_from_raw_os_error, raw_os_error};
use crate::slot::SubmissionSlot;

verus! {

/// The operating system's code that a negative return stands for. The ring
/// reports a failure as the negated code, so the code is the return with its
/// sign taken off: 22, invalid argument, for a return of -22. The least
/// `i32` has no positive counterpart and stands for itself.
pub open spec fn os_error_code(ret: i32) -> i32 {
    if ret == i32::MIN {
        ret
    } else {
        (-ret) as i32
    }
}

/// What a flush that returned `ret` amounts to: the count that the ring took
/// where `ret` is not negative, and otherwise an error of the operating
/// system with the code that `ret` stands for.
pub open spec fn is_flush_result(ret: i32, result: Result<usize, std::io::Error>) -> bool {
    if ret >= 0 {
        result == Ok::<usize, std::io::Error>(ret as usize)
    } else {
        result matches Err(error) && raw_os_error(error) == Some(os_error_code(ret))
    }
}

/// How many slots are still outstanding after a flush that returned `ret`:
/// a failed flush takes none, a successful one takes `ret` of them, and
/// never more than there were.
pub open spec fn pending_after(pending: nat, ret: i32) -> nat {
    if ret <= 0 {
        pending
    } else if ret >= pending {
        0
    } else {
        (pending - ret) as nat
    }
}

/// How many slots are outstanding after an acquisition: one more where the
/// ring gave a slot out. The count stops at `usize::MAX`.
pub open spec fn pending_with(pending: nat, acquired: bool) -> nat {
    if acquired && pending < usize::MAX {
        pending + 1
    } else {
        pending
    }
}

/// The submission side of one ring.
///
/// Its view is the number of slots handed out that no flush has taken yet.
pub struct SubmissionQueue {
    pending: usize,
}

impl SubmissionQueue {
    /// The number of slots handed out that no flush has taken yet.
    pub closed spec fn view(&self) -> nat {
        self.pending as nat
    }

    /// A queue with no slot outstanding.
    pub fn new() -> (queue: SubmissionQueue)
        ensures
            queue@ == 0,
    {
        SubmissionQueue { pending: 0 }
    }

    /// The number of slots handed out that no flush has taken yet.
    pub fn pending(&self) -> (pending: usize)
        ensures
            pending == self@,
    {
        self.pending
    }

    /// Takes in what the ring's acquisition gave: a free slot, or `None`
    /// where the ring is full. A slot comes back as a handle bound to it; a
    /// full ring comes back as `None`, which is no error: the caller is to
    /// flush and try again.
    pub fn next_sqe<'a>(&'a mut self, slot: Option<&'a mut SubmissionSlot>) -> (event: Option<
        SubmissionQueueEvent<'a>,
    >)
        ensures
            slot is None ==> event is None,
            slot matches Some(sqe) ==> event matches Some(handle) && handle@ == *sqe
                && *final(handle.sqe) == *final(sqe),
            final(self)@ == pending_with(old(self)@, slot is Some),
    {
        match slot {
            Some(sqe) => {
                if self.pending < usize::MAX {
                    self.pending = self.pending + 1;
                }
                Some(SubmissionQueueEvent::new(sqe))
            },
            None => None,
        }
    }

    /// Takes in the code `ret` that the ring's flush returned. A code that is
    /// not negative is the number of slots that the ring took; a negative one
    /// becomes the error of the operating system that it stands for, so a
    /// return of -22 gives the error with the code 22.
    pub fn submit(&mut self, ret: i32) -> (result: Result<usize, std::io::Error>)
        ensures
            is_flush_result(ret, result),
            final(self)@ == pending_after(old(self)@, ret),
    {
        if ret >= 0 {
            let count: usize = ret as usize;
            if count >= self.pending {
                self.pending = 0;
            } else {
                self.pending = self.pending - count;
            }
            Ok(count)
        } else {
            let code: i32 = if ret == i32::MIN {
                ret
            } else {
                -ret
            };
            Err(error_from_raw_os_error(code))
        }
    }

    /// Takes in the code `ret` that the ring's flush returned after it had
    /// waited for `wait_for` completions. The code is read as in
    /// [`Self::submit`]: how long the ring waited changes nothing in it.
    pub fn submit_and_wait(&mut self, wait_for: u32, ret: i32) -> (result: Result<
        usize,
        std::io::Error,
    >)
        ensures
            is_flush_result(ret, result),
            final(self)@ == pending_after(old(self)@, ret),
    {
        let _ = wait_for;
        self.submit(ret)
    }
}

} // verus!
