use rand::Rng;
use vstd::prelude::*;

verus! {

/// Seconds before a capsule's natural end during which no capture may start.
pub const MEDIA_CAPTURE_LAG: u64 = 20;

/// Seconds the focused-window poller waits before its first look.
pub const WINDOW_LOG_INITIAL_DELAY: u64 = 10;

/// The delays, in seconds after a capsule starts, at which its one capture may
/// run: from a tenth of the capsule's duration up to `lag` seconds before its
/// end. `None` when no delay fits.
pub open spec fn capture_window_spec(duration: u64, lag: u64) -> Option<(u64, u64)> {
    if lag < duration && duration / 10 <= duration - lag {
        Some(((duration / 10) as u64, (duration - lag) as u64))
    } else {
        None
    }
}

/// Whether a capture started `delay` seconds into a capsule of `duration`
/// seconds respects the window.
pub open spec fn valid_capture_delay(duration: u64, lag: u64, delay: u64) -> bool {
    &&& lag < duration
    &&& duration / 10 <= delay
    &&& delay <= duration - lag
}

/// The window of allowed capture delays for a capsule.
pub fn capture_window(duration: u64, lag: u64) -> (r: Option<(u64, u64)>)
    ensures
        r == capture_window_spec(duration, lag),
{
    let earliest = duration / 10;
    if lag < duration && earliest <= duration - lag {
        Some((earliest, duration - lag))
    } else {
        None
    }
}

/// Whether `delay` lies in the capture window of a capsule.
pub fn is_valid_capture_delay(duration: u64, lag: u64, delay: u64) -> (r: bool)
    ensures
        r == valid_capture_delay(duration, lag, delay),
{
    lag < duration && duration / 10 <= delay && delay <= duration - lag
}

/// Relies on rand's `thread_rng().gen_range(low..=high)`: a value drawn from
/// the inclusive range `low..=high` (it panics only on an empty range, which
/// the precondition rules out).
#[verifier::external_body]
fn random_between(low: u64, high: u64) -> (r: u64)
    requires
        low <= high,
    ensures
        low <= r <= high,
{
    rand::thread_rng().gen_range(low..=high)
}

/// Draws the delay after which a capsule takes its one capture. The draw is
/// random so that the moment cannot be predicted; whatever it is, it lies in
/// the capture window. `None` exactly when the window is empty.
pub fn pick_capture_delay(duration: u64, lag: u64) -> (r: Option<u64>)
    ensures
        r is Some <==> capture_window_spec(duration, lag) is Some,
        r matches Some(d) ==> valid_capture_delay(duration, lag, d),
{
    match capture_window(duration, lag) {
        Some((earliest, latest)) => Some(random_between(earliest, latest)),
        None => None,
    }
}

/// Interval between two looks of the focused-window poller: a tenth of the
/// capsule's duration.
pub fn window_poll_interval(duration: u64) -> (r: u64)
    ensures
        r == duration / 10,
{
    duration / 10
}

} // verus!
