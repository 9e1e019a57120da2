use vstd::prelude::*;

verus! {

/// What to do with the launch-at-login registration.
#[derive(Debug, Clone, Copy, PartialEq, Eq, Structural)]
pub enum AutostartChange {
    /// It already matches the wish.
    Keep,
    Enable,
    Disable,
}

/// Brings launch-at-login in line with `flag`, given whether it is
/// `enabled` now: nothing changes when they agree.
pub fn update(enabled: bool, flag: bool) -> (r: AutostartChange)
    ensures
        enabled == flag ==> r == AutostartChange::Keep,
        enabled != flag && flag ==> r == AutostartChange::Enable,
        enabled != flag && !flag ==> r == AutostartChange::Disable,
{
    if enabled == flag {
        AutostartChange::Keep
    } else if flag {
        AutostartChange::Enable
    } else {
        AutostartChange::Disable
    }
}

} // verus!
