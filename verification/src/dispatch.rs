//! The dispatcher's decision step: map a classified gesture to a mode
//! transition and publish the result.
//!
//! The control loop around this step lives outside: it waits for the
//! debounced press edge, races the release against the timeout, and hands
//! the outcome here as a plain gesture. A short press advances the mode one
//! step along the forward cycle; a long press (the timeout) forces Off.
//! Either way the new mode's encoding is stored in the shared cell, so
//! every renderer's next poll observes it.

use vstd::prelude::*;

use crate::gesture::{classify_press, Gesture};
use crate::publish::SharedModePublisher;
use crate::state::{encode_spec, next_spec, State, StateManager};

verus! {

/// Apply one classified gesture: a short press advances the cycle, a long
/// press forces Off, and the resulting mode is published.
pub fn dispatch(manager: &mut StateManager, publisher: &mut SharedModePublisher, g: Gesture)
    ensures
        g matches Gesture::ShortPress(_)
            ==> final(manager).state == next_spec(old(manager).state),
        g == Gesture::LongPress ==> final(manager).state == State::Off,
        final(publisher).observed() == final(manager).state,
        final(publisher).raw_spec() == encode_spec(final(manager).state),
{
    match g {
        Gesture::ShortPress(_) => manager.next(),
        Gesture::LongPress => manager.set_off(),
    }
    publisher.publish(manager.state);
}

/// One full dispatcher iteration for a press held a known time: classify it
/// against the timeout, transition, and publish. A hold shorter than the
/// timeout advances the cycle; a hold of at least the timeout forces Off.
pub fn dispatch_press(
    manager: &mut StateManager,
    publisher: &mut SharedModePublisher,
    hold_millis: u64,
    timeout_millis: u64,
) -> (g: Gesture)
    ensures
        hold_millis < timeout_millis ==> g == Gesture::ShortPress(hold_millis)
            && final(manager).state == next_spec(old(manager).state),
        hold_millis >= timeout_millis ==> g == Gesture::LongPress
            && final(manager).state == State::Off,
        final(publisher).observed() == final(manager).state,
{
    let g = classify_press(hold_millis, timeout_millis);
    dispatch(manager, publisher, g);
    g
}

} // verus!
