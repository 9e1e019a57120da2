use vstd::prelude::*;

verus! {

/// A latch-once cancellation handle.
///
/// A handle starts out live. Once the signal it listens to has been observed
/// it is cancelled for good: no operation turns it back. A handle derived from
/// another one starts in the same state, so a subscription taken from a
/// cancelled source is cancelled from the start.
#[derive(Debug)]
pub struct Shutdown {
    shutdown: bool,
}

impl Shutdown {
    /// Whether this handle has observed its cancellation signal.
    pub closed spec fn cancelled(&self) -> bool {
        self.shutdown
    }

    /// The handle after it has observed its signal.
    pub closed spec fn signalled(self) -> Shutdown {
        Shutdown { shutdown: true }
    }

    /// A fresh subscription derived from this handle.
    pub closed spec fn derived(self) -> Shutdown {
        Shutdown { shutdown: self.shutdown }
    }

    /// A live handle that has not seen any signal yet.
    pub fn new() -> (s: Self)
        ensures
            !s.cancelled(),
    {
        Shutdown { shutdown: false }
    }

    /// Non-blocking check: true once the signal has been observed.
    pub fn is_shutdown(&self) -> (r: bool)
        ensures
            r == self.cancelled(),
    {
        self.shutdown
    }

    /// Records that the signal fired (or its producer went away); the
    /// handle is cancelled from now on. Observing it again changes nothing.
    pub fn observe_signal(&mut self)
        ensures
            *final(self) == old(self).signalled(),
            final(self).cancelled(),
    {
        self.shutdown = true;
    }

    /// Takes a new subscription from this handle; it is cancelled exactly
    /// when this handle is.
    pub fn subscribe(&self) -> (s: Self)
        ensures
            s == self.derived(),
            s.cancelled() == self.cancelled(),
    {
        Shutdown { shutdown: self.shutdown }
    }
}

/// Cancellation is monotonic: a cancelled handle stays cancelled after it
/// observes another signal, and every subscription derived from it, at any
/// depth, is cancelled too.
pub proof fn lemma_cancellation_is_monotonic(t: Shutdown)
    requires
        t.cancelled(),
    ensures
        t.signalled().cancelled(),
        t.derived().cancelled(),
        t.derived().derived().cancelled(),
        t.derived().signalled().cancelled(),
        t.signalled().derived().cancelled(),
{
}

/// Observing the signal is idempotent: doing it twice leaves the handle as
/// doing it once does.
pub proof fn lemma_signal_is_idempotent(t: Shutdown)
    ensures
        t.signalled().signalled() == t.signalled(),
        t.signalled().cancelled(),
{
}

} // verus!
