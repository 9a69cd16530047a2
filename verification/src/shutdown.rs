//! A cancellation flag that any thread may raise and that the polling loop
//! reads at the start of every iteration.

use std::sync::atomic::{AtomicBool, Ordering};
use std::sync::Arc;
use vstd::prelude::*;

verus! {

/// A handle on one shared cancellation flag. Clones of a handle share the
/// flag, and the flag lives as long as any handle does. The flag starts
/// lowered, can only be raised, and offers no way back.
///
/// The flag's value can change under the reader at any moment, so no
/// contract here speaks of it: what the polling loop does with a value it has
/// read is stated where the loop's steps are.
#[derive(Clone, Debug)]
pub struct CancellationFlag {
    raised: Arc<AtomicBool>,
}

impl CancellationFlag {
    /// A new flag, lowered.
    pub fn new() -> CancellationFlag {
        CancellationFlag { raised: Arc::new(AtomicBool::new(false)) }
    }

    /// Raises the flag. Raising a raised flag changes nothing. Safe to call
    /// from any thread while another one reads.
    pub fn signal(&self) {
        self.raised.store(true, Ordering::Release);
    }

    /// Reads the flag.
    pub fn is_signalled(&self) -> bool {
        self.raised.load(Ordering::Acquire)
    }
}

/// What the loop holds of cancellation after one more reading of the flag:
/// it has seen it if it had seen it before or the flag was read as raised.
pub open spec fn noted(seen: bool, raised: bool) -> bool {
    seen || raised
}

/// The polling loop's own view of a cancellation flag. It remembers that it
/// has seen the flag raised, so from then on every look reports cancellation,
/// whatever the shared flag holds.
#[derive(Debug)]
pub struct CancellationLatch {
    flag: CancellationFlag,
    seen: bool,
}

impl CancellationLatch {
    /// Whether cancellation has been seen.
    pub closed spec fn seen(&self) -> bool {
        self.seen
    }

    /// The shared flag that the latch reads.
    pub closed spec fn flag(&self) -> CancellationFlag {
        self.flag
    }

    /// A view of `flag` that has not seen it raised yet.
    pub fn new(flag: CancellationFlag) -> (latch: CancellationLatch)
        ensures
            latch.flag() == flag,
            !latch.seen(),
    {
        CancellationLatch { flag, seen: false }
    }

    /// Whether cancellation has been seen.
    pub fn has_seen(&self) -> (seen: bool)
        ensures
            seen == self.seen(),
    {
        self.seen
    }

    /// Takes note of one reading of the flag: cancellation counts as seen if
    /// it was seen before or the flag was read as raised.
    pub fn note(&mut self, raised: bool) -> (cancelled: bool)
        ensures
            cancelled == noted(old(self).seen(), raised),
            final(self).seen() == cancelled,
            final(self).flag() == old(self).flag(),
    {
        self.seen = self.seen || raised;
        self.seen
    }

    /// Reads the shared flag and takes note of what was read. Once
    /// cancellation has been seen, the answer is `true` for good.
    pub fn observe(&mut self) -> (cancelled: bool)
        ensures
            final(self).seen() == cancelled,
            old(self).seen() ==> cancelled,
            final(self).flag() == old(self).flag(),
    {
        let raised = self.flag.is_signalled();
        self.note(raised)
    }
}

} // verus!
