//! The single-writer cell through which the dispatcher makes the current
//! mode visible to every renderer.
//!
//! The cell holds the mode's integer encoding in one word-sized unit, so no
//! reader ever observes a torn value; single-writer discipline (only the
//! dispatcher publishes) is a design contract. In the running system the
//! cell is one atomic byte; this model captures exactly what the contracts
//! of store and load promise: a load after a store observes the stored
//! mode, and a load never observes anything but the decoding of what was
//! stored.

use vstd::prelude::*;

use crate::state::{decode_spec, encode_spec, State};

verus! {

/// What a reader observes when the cell holds the raw byte `v`: the decoded
/// mode, with anything invalid normalized to Off.
pub open spec fn observed_spec(v: u8) -> State {
    decode_spec(v)
}

/// A single atomically-shared value holding the integer encoding of the
/// current mode. Logical owner and sole writer: the dispatcher. Readers:
/// all renderer tasks.
pub struct SharedModePublisher {
    raw: u8,
}

impl SharedModePublisher {
    /// The raw byte currently stored in the cell.
    pub closed spec fn raw_spec(self) -> u8 {
        self.raw
    }

    /// The mode a poll of this cell observes.
    pub open spec fn observed(self) -> State {
        observed_spec(self.raw_spec())
    }

    /// The cell starts holding Off's encoding, before any press is seen.
    pub fn new() -> (r: Self)
        ensures
            r.observed() == State::Off,
            r.raw_spec() == encode_spec(State::Off),
    {
        SharedModePublisher { raw: 0 }
    }

    /// Publish a mode: store its encoding so every later poll observes it.
    pub fn publish(&mut self, s: State)
        ensures
            final(self).raw_spec() == encode_spec(s),
            final(self).observed() == s,
    {
        proof {
            crate::state::lemma_decode_encode_identity(s);
        }
        self.raw = s.encode();
    }

    /// Poll the cell: decode the stored byte, normalizing an invalid value
    /// to Off so no renderer ever drives an undefined mode.
    pub fn poll(&self) -> (r: State)
        ensures
            r == self.observed(),
    {
        State::decode(self.raw)
    }
}

/// Single-writer visibility: once the writer has stored mode `m`'s
/// encoding, every poll observes exactly `m` until the next store — never a
/// mode that was not published — and whatever byte the cell holds, a poll
/// observes some decodable mode, never an undefined one.
pub proof fn lemma_publish_visible(m: State, v: u8)
    ensures
        observed_spec(encode_spec(m)) == m,
        observed_spec(v) == decode_spec(v),
{
    crate::state::lemma_decode_encode_identity(m);
}

} // verus!
