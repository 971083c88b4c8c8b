//! The mode state machine and the integer encoding used for publication.

use vstd::prelude::*;
use vstd::string::StringExecFns;

verus! {

/// Operating level of the device: a closed five-valued enumeration.
/// Ordered only as a cycle for transition purposes, never as a numeric scale.
#[derive(Clone, Copy, Debug, PartialEq, Eq, Structural)]
pub enum State {
    Off,
    Low,
    Mid,
    High,
    Auto,
}

impl Default for State {
    /// The device starts switched off.
    fn default() -> (r: Self)
        ensures
            r == State::Off,
    {
        State::Off
    }
}

/// Canonical integer encoding of a mode, used purely for cross-task
/// publication: Off=0, Low=1, Mid=2, High=3, Auto=4.
pub open spec fn encode_spec(s: State) -> u8 {
    match s {
        State::Off => 0,
        State::Low => 1,
        State::Mid => 2,
        State::High => 3,
        State::Auto => 4,
    }
}

/// Decoding of a published integer. Any value outside the five valid codes
/// decodes to Off: the fail-safe default, so the device never renders an
/// undefined mode.
pub open spec fn decode_spec(v: u8) -> State {
    if v == 1 {
        State::Low
    } else if v == 2 {
        State::Mid
    } else if v == 3 {
        State::High
    } else if v == 4 {
        State::Auto
    } else {
        State::Off
    }
}

impl State {
    /// Encode this mode to its published integer form.
    pub fn encode(self) -> (r: u8)
        ensures
            r == encode_spec(self),
    {
        match self {
            State::Off => 0,
            State::Low => 1,
            State::Mid => 2,
            State::High => 3,
            State::Auto => 4,
        }
    }

    /// Decode a published integer, normalizing anything out of range to Off.
    pub fn decode(v: u8) -> (r: State)
        ensures
            r == decode_spec(v),
    {
        match v {
            1 => State::Low,
            2 => State::Mid,
            3 => State::High,
            4 => State::Auto,
            _ => State::Off,
        }
    }
}

/// The label a diagnostic line prints for each mode.
pub open spec fn label_spec(s: State) -> Seq<char> {
    match s {
        State::Off => "Off"@,
        State::Low => "Low"@,
        State::Mid => "Mid"@,
        State::High => "High"@,
        State::Auto => "Auto"@,
    }
}

impl State {
    /// The mode's name, as diagnostic output prints it.
    pub fn label(&self) -> (r: String)
        ensures
            r@ == label_spec(*self),
    {
        match self {
            State::Off => String::from_str("Off"),
            State::Low => String::from_str("Low"),
            State::Mid => String::from_str("Mid"),
            State::High => String::from_str("High"),
            State::Auto => String::from_str("Auto"),
        }
    }
}

/// The forward cycle: Off goes to Low, then Low, Mid, High, Auto cycle with
/// Auto returning to Low. Off is never re-entered by the cycle; it is only
/// reachable through `set_off`.
pub open spec fn next_spec(s: State) -> State {
    match s {
        State::Off => State::Low,
        State::Low => State::Mid,
        State::Mid => State::High,
        State::High => State::Auto,
        State::Auto => State::Low,
    }
}

/// Owns the single authoritative mode value. Mutated only by the dispatcher;
/// renderers see the mode only through its published encoding.
pub struct StateManager {
    pub state: State,
}

impl Default for StateManager {
    /// A fresh manager starts in Off.
    fn default() -> (r: Self)
        ensures
            r.state == State::Off,
    {
        StateManager::new()
    }
}

impl StateManager {
    /// Create a manager in the initial mode, Off.
    pub fn new() -> (r: Self)
        ensures
            r.state == State::Off,
    {
        StateManager { state: State::Off }
    }

    /// Advance one step along the forward cycle.
    pub fn next(&mut self)
        ensures
            final(self).state == next_spec(old(self).state),
    {
        let new_state = match self.state {
            State::Off => State::Low,
            State::Low => State::Mid,
            State::Mid => State::High,
            State::High => State::Auto,
            State::Auto => State::Low,
        };
        self.state = new_state;
    }

    /// Force the mode to Off, from any state.
    pub fn set_off(&mut self)
        ensures
            final(self).state == State::Off,
    {
        self.state = State::Off;
    }
}

/// Cyclic transition law: the four non-Off modes form a cycle of length
/// four, so four presses return any of them to itself; from Off, five
/// presses land on Low (Off, then Low, Mid, High, Auto, Low).
pub proof fn lemma_cycle_period(s: State)
    ensures
        s != State::Off ==> next_spec(next_spec(next_spec(next_spec(s)))) == s,
        next_spec(next_spec(next_spec(next_spec(next_spec(State::Off))))) == State::Low,
{
}

/// Iterating `next` never reaches Off: the forward cycle never revisits it,
/// so Off is reachable only through `set_off`.
pub proof fn lemma_next_never_off(s: State)
    ensures
        next_spec(s) != State::Off,
{
}

/// Fail-safe decode law: every integer in the valid range round-trips
/// through decode and encode, and every integer out of range decodes to Off.
pub proof fn lemma_encode_decode_identity(v: u8)
    ensures
        v <= 4 ==> encode_spec(decode_spec(v)) == v,
        v > 4 ==> decode_spec(v) == State::Off,
{
}

/// Every mode round-trips through encode and decode: a published mode is
/// read back exactly.
pub proof fn lemma_decode_encode_identity(s: State)
    ensures
        decode_spec(encode_spec(s)) == s,
{
}

} // verus!
