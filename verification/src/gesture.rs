//! Classification of one full button press into a short or a long press.
//!
//! After the press edge is debounced, the hardware races the debounced
//! release edge against a fixed timeout and cancels the loser. The race's
//! outcome reaches this module as a plain value: the elapsed time at
//! release if the release edge won, or nothing if the timer won. The
//! boundary case, a release at exactly the timeout, is inherently racy on
//! the live line; the policy here treats a hold of at least the timeout as
//! a long press.

use vstd::prelude::*;

verus! {

/// Default release timeout: a press held at least this long, in
/// milliseconds, is a long press.
pub const LONG_PRESS_TIMEOUT_MILLIS: u64 = 1000;

/// Outcome of one completed button interaction: a press released before the
/// timeout, with the time it was held, or a press held to the timeout.
#[derive(Clone, Copy, Debug, PartialEq, Eq, Structural)]
pub enum Gesture {
    ShortPress(u64),
    LongPress,
}

/// Classify the outcome of the release-versus-timeout race: a release that
/// arrived before the timer fired is a short press with its elapsed time; a
/// race the timer won is a long press.
pub fn classify(release_elapsed_millis: Option<u64>) -> (r: Gesture)
    ensures
        release_elapsed_millis matches Some(d) ==> r == Gesture::ShortPress(d),
        release_elapsed_millis is None ==> r == Gesture::LongPress,
{
    match release_elapsed_millis {
        Some(d) => Gesture::ShortPress(d),
        None => Gesture::LongPress,
    }
}

/// Model of the race itself for a press held a known time: the release edge
/// wins exactly when the hold is shorter than the timeout. On the live line
/// a release at exactly the timeout may resolve either way; this model
/// follows the observed policy of treating it as a timeout.
pub fn race_release(hold_millis: u64, timeout_millis: u64) -> (r: Option<u64>)
    ensures
        hold_millis < timeout_millis ==> r == Some(hold_millis),
        hold_millis >= timeout_millis ==> r is None,
{
    if hold_millis < timeout_millis {
        Some(hold_millis)
    } else {
        None
    }
}

/// Gesture boundary: a press held strictly less than the timeout yields a
/// short press carrying its duration; a press held at least the timeout
/// yields a long press.
pub fn classify_press(hold_millis: u64, timeout_millis: u64) -> (r: Gesture)
    ensures
        hold_millis < timeout_millis ==> r == Gesture::ShortPress(hold_millis),
        hold_millis >= timeout_millis ==> r == Gesture::LongPress,
{
    classify(race_release(hold_millis, timeout_millis))
}

} // verus!
