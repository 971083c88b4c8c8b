//! Debouncing of a noisy button line.
//!
//! The hardware loop reads the line's level, suspends until any edge, waits
//! one full debounce window, and reads the level again. If the level settled
//! back to where it started the edge was contact bounce and the loop
//! repeats; otherwise the new level is a genuine transition that persisted
//! for the whole window. Each iteration therefore yields one observation:
//! the level before the edge and the level after the window. This module
//! holds the decision logic over those observations; the waits themselves
//! happen outside.

use vstd::prelude::*;

verus! {

/// Default debounce window: how long a transition must hold to be accepted,
/// in milliseconds.
pub const DEBOUNCE_MILLIS: u64 = 50;

/// Level of a digital input line.
#[derive(Clone, Copy, Debug, PartialEq, Eq, Structural)]
pub enum Level {
    Low,
    High,
}

/// Event produced by a completed button interaction.
#[derive(Clone, Copy, Debug, PartialEq, Eq, Structural)]
pub enum Event {
    ButtonPressed,
}

/// One debounce iteration's observation: the line's level just before an
/// edge fired, and its level after the full debounce window elapsed.
#[derive(Clone, Copy, Debug, PartialEq, Eq, Structural)]
pub struct Observation {
    pub before_edge: Level,
    pub after_window: Level,
}

/// An observation is a bounce when the line settled back to its pre-edge
/// level before the window elapsed: such an edge must never be returned.
pub open spec fn is_bounce(o: Observation) -> bool {
    o.before_edge == o.after_window
}

/// What debouncing yields on a sequence of observations: the post-window
/// level of the first observation that is not a bounce, or nothing if every
/// observation bounced.
pub open spec fn debounce_spec(obs: Seq<Observation>) -> Option<Level>
    decreases obs.len(),
{
    if obs.len() == 0 {
        None
    } else if !is_bounce(obs[0]) {
        Some(obs[0].after_window)
    } else {
        debounce_spec(obs.drop_first())
    }
}

/// Wraps a single digital input line with a fixed debounce window.
/// The line handle itself lives outside; this type carries the window and
/// the decision logic.
pub struct DebouncedButton {
    pub debounce_millis: u64,
}

impl DebouncedButton {
    /// Create a debouncer with the given window, in milliseconds.
    pub fn new(debounce_millis: u64) -> (r: Self)
        ensures
            r.debounce_millis == debounce_millis,
    {
        DebouncedButton { debounce_millis }
    }

    /// Decide one debounce iteration: a level change that held through the
    /// window is returned; a level that settled back is rejected and the
    /// wait must repeat.
    pub fn debounce_step(&self, o: Observation) -> (r: Option<Level>)
        ensures
            r == (if is_bounce(o) {
                Option::<Level>::None
            } else {
                Option::<Level>::Some(o.after_window)
            }),
    {
        if o.before_edge == o.after_window {
            None
        } else {
            Some(o.after_window)
        }
    }

    /// Run the debounce loop over a recorded sequence of observations,
    /// returning the first genuinely settled level, as the blocking loop
    /// would on the live line. Returns None only if every observation in
    /// the sequence bounced (on the live line the loop would keep waiting).
    pub fn debounce(&self, obs: &Vec<Observation>) -> (r: Option<Level>)
        ensures
            r == debounce_spec(obs@),
    {
        let mut i: usize = 0;
        proof {
            assert(obs@.skip(0) =~= obs@);
        }
        while i < obs.len()
            invariant
                0 <= i <= obs.len(),
                debounce_spec(obs@) == debounce_spec(obs@.skip(i as int)),
            decreases obs.len() - i,
        {
            let o = obs[i];
            proof {
                assert(obs@.skip(i as int)[0] == o);
                assert(obs@.skip(i as int).drop_first() =~= obs@.skip(i as int + 1));
            }
            if o.before_edge != o.after_window {
                return Some(o.after_window);
            }
            i = i + 1;
        }
        proof {
            assert(obs@.skip(obs.len() as int) =~= Seq::<Observation>::empty());
        }
        None
    }
}

/// Debounce correctness: the returned level is never a bounce's level. If
/// debouncing yields a level, some observation saw the line change and hold
/// that level for the full window, and every earlier observation bounced;
/// if it yields nothing, every observation bounced.
pub proof fn lemma_debounce_rejects_bounces(obs: Seq<Observation>)
    ensures
        forall|l: Level|
            debounce_spec(obs) == Some(l) ==> exists|i: int|
                0 <= i < obs.len() && !is_bounce(#[trigger] obs[i]) && obs[i].after_window == l
                    && (forall|j: int| 0 <= j < i ==> is_bounce(obs[j])),
        debounce_spec(obs) is None ==> forall|i: int|
            0 <= i < obs.len() ==> is_bounce(#[trigger] obs[i]),
    decreases obs.len(),
{
    if obs.len() == 0 {
    } else if !is_bounce(obs[0]) {
        assert forall|l: Level| debounce_spec(obs) == Some(l) implies exists|i: int|
            0 <= i < obs.len() && !is_bounce(#[trigger] obs[i]) && obs[i].after_window == l && (
            forall|j: int| 0 <= j < i ==> is_bounce(obs[j])) by {
            assert(0 <= 0 < obs.len() && !is_bounce(obs[0]) && obs[0].after_window == l && (
            forall|j: int| 0 <= j < 0 ==> is_bounce(obs[j])));
        }
    } else {
        let rest = obs.drop_first();
        lemma_debounce_rejects_bounces(rest);
        assert forall|l: Level| debounce_spec(obs) == Some(l) implies exists|i: int|
            0 <= i < obs.len() && !is_bounce(#[trigger] obs[i]) && obs[i].after_window == l && (
            forall|j: int| 0 <= j < i ==> is_bounce(obs[j])) by {
            assert(debounce_spec(rest) == Some(l));
            let k = choose|k: int|
                0 <= k < rest.len() && !is_bounce(#[trigger] rest[k]) && rest[k].after_window == l
                    && (forall|j: int| 0 <= j < k ==> is_bounce(rest[j]));
            assert(obs[k + 1] == rest[k]);
            assert forall|j: int| 0 <= j < k + 1 implies is_bounce(obs[j]) by {
                if j == 0 {
                } else {
                    assert(obs[j] == rest[j - 1]);
                }
            }
            assert(0 <= k + 1 < obs.len() && !is_bounce(obs[k + 1]) && obs[k + 1].after_window == l
                && (forall|j: int| 0 <= j < k + 1 ==> is_bounce(obs[j])));
        }
        if debounce_spec(obs) is None {
            assert forall|i: int| 0 <= i < obs.len() implies is_bounce(#[trigger] obs[i]) by {
                if i > 0 {
                    assert(obs[i] == rest[i - 1]);
                }
            }
        }
    }
}

} // verus!
