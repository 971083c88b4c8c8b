//! Per-mode rendering plans for the two output drivers.
//!
//! Each renderer task polls the published mode once per iteration and then
//! drives its own outputs through a fixed, mode-specific pattern: a finite
//! sequence of (output levels, hold time) steps executed to completion
//! before the mode is re-read. A plan is that sequence as a value, so a
//! mode change that lands mid-plan is by construction not observed until
//! the plan's last step has run. The last step's hold is the polling pause
//! before the next read, except in the lamp's Auto animation, whose steps
//! already consume the iteration's time.

use vstd::prelude::*;

use crate::button::Level;
use crate::publish::SharedModePublisher;
use crate::state::State;

verus! {

/// The pause a renderer takes between polls of the published mode, in
/// milliseconds.
pub const POLL_INTERVAL_MILLIS: u64 = 100;

/// Hold time of each stage of the lamp's Auto animation, in milliseconds.
pub const AUTO_STEP_MILLIS: u64 = 500;

/// One step of the lamp renderer's plan: the level of each of the three
/// lamps, held for the given time before the next step or the next poll.
#[derive(Clone, Copy, Debug, PartialEq, Eq, Structural)]
pub struct LampStep {
    pub led1: Level,
    pub led2: Level,
    pub led3: Level,
    pub hold_millis: u64,
}

/// One step of the power renderer's plan: the level of the power-switching
/// line, held for the given time before the next step or the next poll.
#[derive(Clone, Copy, Debug, PartialEq, Eq, Structural)]
pub struct PowerStep {
    pub level: Level,
    pub hold_millis: u64,
}

/// How many of a lamp step's three outputs are active.
pub open spec fn lamp_active_count(s: LampStep) -> int {
    (if s.led1 == Level::High {
        1int
    } else {
        0int
    }) + (if s.led2 == Level::High {
        1int
    } else {
        0int
    }) + (if s.led3 == Level::High {
        1int
    } else {
        0int
    })
}

/// The lamp renderer's plan for each mode. Off holds all lamps low; Low,
/// Mid and High hold one, two and three lamps lit until the next poll; Auto
/// is a two-stage timed animation that runs to completion in place of the
/// polling pause.
pub open spec fn lamp_plan_spec(s: State) -> Seq<LampStep> {
    match s {
        State::Off => seq![
            LampStep {
                led1: Level::Low,
                led2: Level::Low,
                led3: Level::Low,
                hold_millis: POLL_INTERVAL_MILLIS,
            },
        ],
        State::Low => seq![
            LampStep {
                led1: Level::High,
                led2: Level::Low,
                led3: Level::Low,
                hold_millis: POLL_INTERVAL_MILLIS,
            },
        ],
        State::Mid => seq![
            LampStep {
                led1: Level::High,
                led2: Level::High,
                led3: Level::Low,
                hold_millis: POLL_INTERVAL_MILLIS,
            },
        ],
        State::High => seq![
            LampStep {
                led1: Level::High,
                led2: Level::High,
                led3: Level::High,
                hold_millis: POLL_INTERVAL_MILLIS,
            },
        ],
        State::Auto => seq![
            LampStep {
                led1: Level::High,
                led2: Level::Low,
                led3: Level::High,
                hold_millis: AUTO_STEP_MILLIS,
            },
            LampStep {
                led1: Level::Low,
                led2: Level::Low,
                led3: Level::High,
                hold_millis: AUTO_STEP_MILLIS,
            },
        ],
    }
}

/// The power renderer's plan for each mode. Off and Auto hold the line low;
/// Low and Mid pulse it with mode-specific on and off times; High holds it
/// high until the next poll.
pub open spec fn power_plan_spec(s: State) -> Seq<PowerStep> {
    match s {
        State::Off => seq![
            PowerStep { level: Level::Low, hold_millis: POLL_INTERVAL_MILLIS },
        ],
        State::Low => seq![
            PowerStep { level: Level::High, hold_millis: 500 },
            PowerStep { level: Level::Low, hold_millis: 1000 },
            PowerStep { level: Level::Low, hold_millis: POLL_INTERVAL_MILLIS },
        ],
        State::Mid => seq![
            PowerStep { level: Level::High, hold_millis: 700 },
            PowerStep { level: Level::Low, hold_millis: 300 },
            PowerStep { level: Level::Low, hold_millis: POLL_INTERVAL_MILLIS },
        ],
        State::High => seq![
            PowerStep { level: Level::High, hold_millis: POLL_INTERVAL_MILLIS },
        ],
        State::Auto => seq![
            PowerStep { level: Level::Low, hold_millis: POLL_INTERVAL_MILLIS },
        ],
    }
}

/// Build the lamp renderer's plan for a mode.
pub fn lamp_plan(s: State) -> (r: Vec<LampStep>)
    ensures
        r@ == lamp_plan_spec(s),
{
    let r = match s {
        State::Off => vec![
            LampStep {
                led1: Level::Low,
                led2: Level::Low,
                led3: Level::Low,
                hold_millis: POLL_INTERVAL_MILLIS,
            },
        ],
        State::Low => vec![
            LampStep {
                led1: Level::High,
                led2: Level::Low,
                led3: Level::Low,
                hold_millis: POLL_INTERVAL_MILLIS,
            },
        ],
        State::Mid => vec![
            LampStep {
                led1: Level::High,
                led2: Level::High,
                led3: Level::Low,
                hold_millis: POLL_INTERVAL_MILLIS,
            },
        ],
        State::High => vec![
            LampStep {
                led1: Level::High,
                led2: Level::High,
                led3: Level::High,
                hold_millis: POLL_INTERVAL_MILLIS,
            },
        ],
        State::Auto => vec![
            LampStep {
                led1: Level::High,
                led2: Level::Low,
                led3: Level::High,
                hold_millis: AUTO_STEP_MILLIS,
            },
            LampStep {
                led1: Level::Low,
                led2: Level::Low,
                led3: Level::High,
                hold_millis: AUTO_STEP_MILLIS,
            },
        ],
    };
    proof {
        assert(r@ =~= lamp_plan_spec(s));
    }
    r
}

/// Build the power renderer's plan for a mode.
pub fn power_plan(s: State) -> (r: Vec<PowerStep>)
    ensures
        r@ == power_plan_spec(s),
{
    let r = match s {
        State::Off => vec![
            PowerStep { level: Level::Low, hold_millis: POLL_INTERVAL_MILLIS },
        ],
        State::Low => vec![
            PowerStep { level: Level::High, hold_millis: 500 },
            PowerStep { level: Level::Low, hold_millis: 1000 },
            PowerStep { level: Level::Low, hold_millis: POLL_INTERVAL_MILLIS },
        ],
        State::Mid => vec![
            PowerStep { level: Level::High, hold_millis: 700 },
            PowerStep { level: Level::Low, hold_millis: 300 },
            PowerStep { level: Level::Low, hold_millis: POLL_INTERVAL_MILLIS },
        ],
        State::High => vec![
            PowerStep { level: Level::High, hold_millis: POLL_INTERVAL_MILLIS },
        ],
        State::Auto => vec![
            PowerStep { level: Level::Low, hold_millis: POLL_INTERVAL_MILLIS },
        ],
    };
    proof {
        assert(r@ =~= power_plan_spec(s));
    }
    r
}

/// One lamp renderer iteration's decision: poll the published mode once and
/// fix the whole plan from it. The returned plan is a value: a publish that
/// happens while the plan is being driven cannot alter it, so an animation
/// in flight always runs to completion before the new mode is observed.
pub fn lamp_cycle(p: &SharedModePublisher) -> (r: Vec<LampStep>)
    ensures
        r@ == lamp_plan_spec(p.observed()),
{
    lamp_plan(p.poll())
}

/// One power renderer iteration's decision, polling once and fixing the
/// whole plan, exactly as the lamp renderer does.
pub fn power_cycle(p: &SharedModePublisher) -> (r: Vec<PowerStep>)
    ensures
        r@ == power_plan_spec(p.observed()),
{
    power_plan(p.poll())
}

/// The held lamp patterns are monotone in the level: Off lights no lamp,
/// and Low, Mid and High light strictly more lamps in turn.
pub proof fn lemma_lamp_levels_monotone()
    ensures
        lamp_active_count(lamp_plan_spec(State::Off)[0]) == 0,
        lamp_active_count(lamp_plan_spec(State::Low)[0]) == 1,
        lamp_active_count(lamp_plan_spec(State::Mid)[0]) == 2,
        lamp_active_count(lamp_plan_spec(State::High)[0]) == 3,
{
}

} // verus!
