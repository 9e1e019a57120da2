use vstd::prelude::*;

verus! {

/// Commands for the screen recorder.
#[derive(Debug, Clone, Copy, PartialEq, Eq, Structural)]
pub enum RecordCommand {
    Start,
    Pause,
    Resume,
    Stop,
}

} // verus!
