//! The spin session: which draw is on record and whether it has been paid.
//!
//! A session starts `Idle`, every spin records a result (`Spun`), and a
//! settlement of the recorded result consumes it (`Settled`). A settlement by
//! a caller-supplied index never looks at the record and leaves it as it is.

use vstd::prelude::*;
use crate::error::EscrowError;

verus! {

/// Where a session stands.
#[derive(Clone, Copy, Debug, PartialEq, Eq, Structural)]
pub enum SpinPhase {
    /// No spin has taken place.
    Idle,
    /// The last spin selected `index`, and it has not been paid out.
    Spun { index: usize },
    /// The last spin selected `index`, and it has been paid out.
    Settled { index: usize },
}

/// Which entry a settlement pays out.
#[derive(Clone, Copy, Debug, PartialEq, Eq, Structural)]
pub enum Settlement {
    /// The entry that the last spin recorded. Each recorded result is paid
    /// once.
    Recorded,
    /// The entry that the caller names, whatever was drawn. The record is
    /// neither read nor consumed, so the same index can be paid again.
    CallerSupplied { index: usize },
}

/// The session record of one escrow.
#[derive(Clone, Copy, Debug, PartialEq, Eq, Structural)]
pub struct SpinState {
    /// Where the session stands.
    pub phase: SpinPhase,
    /// Seed of the escrow's derived address; stored, never interpreted.
    pub nonce: u8,
}

impl SpinState {
    /// The result of the last spin, paid out or not.
    pub open spec fn last_result(self) -> Option<usize> {
        match self.phase {
            SpinPhase::Idle => None,
            SpinPhase::Spun { index } => Some(index),
            SpinPhase::Settled { index } => Some(index),
        }
    }

    /// The index that a settlement `by` pays out, or why it pays nothing.
    pub open spec fn target(self, by: Settlement) -> Result<usize, EscrowError> {
        match by {
            Settlement::CallerSupplied { index } => Ok(index),
            Settlement::Recorded => match self.phase {
                SpinPhase::Idle => Err(EscrowError::NothingToSettle),
                SpinPhase::Spun { index } => Ok(index),
                SpinPhase::Settled { index } => Err(EscrowError::AlreadySettled),
            },
        }
    }

    /// The session after a spin that selected `index`.
    pub open spec fn after_spin(self, index: usize) -> SpinState {
        SpinState { phase: SpinPhase::Spun { index }, nonce: self.nonce }
    }

    /// The session after a settlement `by` has been paid.
    pub open spec fn after_settlement(self, by: Settlement) -> SpinState {
        match (by, self.phase) {
            (Settlement::Recorded, SpinPhase::Spun { index }) => SpinState {
                phase: SpinPhase::Settled { index },
                nonce: self.nonce,
            },
            _ => self,
        }
    }

    /// The idle session with seed `nonce`.
    pub open spec fn new_spec(nonce: u8) -> SpinState {
        SpinState { phase: SpinPhase::Idle, nonce }
    }

    /// An idle session.
    pub fn new(nonce: u8) -> (state: SpinState)
        ensures
            state == SpinState::new_spec(nonce),
    {
        SpinState { phase: SpinPhase::Idle, nonce }
    }

    /// The result of the last spin, paid out or not.
    pub fn last_result_index(&self) -> (index: Option<usize>)
        ensures
            index == self.last_result(),
    {
        match self.phase {
            SpinPhase::Idle => None,
            SpinPhase::Spun { index } => Some(index),
            SpinPhase::Settled { index } => Some(index),
        }
    }

    /// Records `index` as the result of a spin, over whatever was on record.
    pub fn record(&mut self, index: usize)
        ensures
            *final(self) == old(self).after_spin(index),
    {
        self.phase = SpinPhase::Spun { index };
    }

    /// The index that a settlement `by` pays out.
    pub fn settlement_index(&self, by: Settlement) -> (result: Result<usize, EscrowError>)
        ensures
            result == self.target(by),
    {
        match by {
            Settlement::CallerSupplied { index } => Ok(index),
            Settlement::Recorded => match self.phase {
                SpinPhase::Idle => Err(EscrowError::NothingToSettle),
                SpinPhase::Spun { index } => Ok(index),
                SpinPhase::Settled { index: _ } => Err(EscrowError::AlreadySettled),
            },
        }
    }

    /// Marks a settlement `by` as paid: a recorded result is consumed, a
    /// caller-supplied one leaves the record untouched.
    pub fn mark_settled(&mut self, by: Settlement)
        ensures
            *final(self) == old(self).after_settlement(by),
    {
        match by {
            Settlement::Recorded => {
                match self.phase {
                    SpinPhase::Spun { index } => {
                        self.phase = SpinPhase::Settled { index };
                    },
                    _ => {},
                }
            },
            Settlement::CallerSupplied { index: _ } => {},
        }
    }
}

/// A recorded result is paid at most once: after it has been settled, a
/// second settlement of the record is refused.
pub proof fn lemma_recorded_result_settles_once(state: SpinState)
    requires
        state.target(Settlement::Recorded) is Ok,
    ensures
        state.after_settlement(Settlement::Recorded).target(Settlement::Recorded) == Err::<
            usize,
            EscrowError,
        >(EscrowError::AlreadySettled),
{
}

/// A spin always leaves a result to settle, whatever stood on record.
pub proof fn lemma_spin_makes_settleable(state: SpinState, index: usize)
    ensures
        state.after_spin(index).target(Settlement::Recorded) == Ok::<usize, EscrowError>(index),
        state.after_spin(index).last_result() == Some(index),
{
}

} // verus!
