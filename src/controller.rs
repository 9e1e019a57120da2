use vstd::prelude::*;

verus! {

/// The soft-stop switch of a session: when set, the session loop finishes
/// the capsule in progress and then stops instead of starting another one.
#[derive(Debug, Clone, Copy, Default)]
pub struct SessionController {
    pub is_shutdown: bool,
}

impl SessionController {
    /// Asks the session to stop once the current capsule has ended.
    pub fn shutdown(&mut self)
        ensures
            final(self).is_shutdown,
    {
        self.is_shutdown = true;
    }

    /// Clears a pending soft-stop request, as a new session begins.
    pub fn start(&mut self)
        ensures
            !final(self).is_shutdown,
    {
        self.is_shutdown = false;
    }

    /// Whether a soft stop has been requested.
    pub fn is_shutdown(&self) -> (r: bool)
        ensures
            r == self.is_shutdown,
    {
        self.is_shutdown
    }
}

} // verus!
