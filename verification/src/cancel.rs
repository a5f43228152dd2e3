use vstd::prelude::*;

verus! {

/// What one `cancel` call does to the flag: the flag is set, no matter
/// whether it was already set. There is no step that clears it.
pub open spec fn cancel_step(cancelled: bool) -> bool {
    true
}

/// The process-wide shutdown signal, as every holder observes it: a flag
/// that starts clear, can be set from any holder, and is never reset for
/// the rest of the run. The broadcast/wait plumbing that shares one such
/// flag between threads and lets a task sleep until it is set lives outside
/// this crate; the state and its transitions are decided here.
pub struct CancelFlag {
    cancelled: bool,
}

impl CancelFlag {
    /// Whether shutdown has been requested.
    pub closed spec fn is_set(&self) -> bool {
        self.cancelled
    }

    /// A fresh signal: shutdown not yet requested.
    pub fn new() -> (r: CancelFlag)
        ensures
            !r.is_set(),
    {
        CancelFlag { cancelled: false }
    }

    /// Request shutdown. Idempotent: the flag ends up set whatever its
    /// previous state, so a second call changes nothing.
    pub fn cancel(&mut self)
        ensures
            final(self).is_set() == cancel_step(old(self).is_set()),
    {
        self.cancelled = true;
    }

    /// Poll-style observation, for observers that cannot wait.
    pub fn is_cancelled(&self) -> (r: bool)
        ensures
            r == self.is_set(),
    {
        self.cancelled
    }
}

/// Law: cancelling twice leaves the signal in exactly the state that
/// cancelling once does — every observer sees the same flag, and no call
/// after the first has any further effect.
pub proof fn lemma_cancel_idempotent(cancelled: bool)
    ensures
        cancel_step(cancel_step(cancelled)) == cancel_step(cancelled),
{
}

} // verus!
