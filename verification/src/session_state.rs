use vstd::prelude::*;

verus! {

/// Where a timer session stands.
#[derive(Debug, Clone, Copy, PartialEq, Eq, Structural)]
pub enum SessionState {
    Running,
    Paused,
    Completed,
    /// All cycles completed.
    Finished,
}

} // verus!
